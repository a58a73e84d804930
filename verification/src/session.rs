//! One fetch, taken step by step.
//!
//! A session asks for one action at a time: load certificates, look for the
//! cached copy, fetch the manifest, read the stored digest, pull, write the
//! cache. The caller performs the action and reports the outcome as an
//! event; the session decides what follows.

use vstd::prelude::*;
use crate::artifact::{PulledArtifact, PulledArtifactView};
use crate::cache::{cache_hit, is_cache_hit, CacheEntry, CacheEntryView};
use crate::error::FetchError;
use crate::fetcher::{OciArtifactCacheUpdate, RegistryAuth, RegistryAuthView};
use crate::reference::{ImageReference, ImageReferenceView};
use crate::text::{buffers, opt_text, texts};
use crate::transport::{ClientProtocol, ClientProtocolView};

verus! {

/// What the caller is asked to do next.
#[derive(Debug, Clone, Copy, PartialEq, Eq, Structural)]
pub enum FetchAction {
    /// Read and decode the certificates at the additional CA paths.
    LoadCertificates,
    /// Look whether the cache file exists.
    ProbeCache,
    /// Fetch the manifest alone and report its digest.
    FetchManifest,
    /// Read the digest file; a file that is missing or unreadable counts as
    /// empty.
    ReadDigest,
    /// Pull manifest and layers.
    Pull,
    /// Write the content to the cache file and, where a digest is known, the
    /// digest to the digest file.
    WriteCache,
    /// Nothing: the fetch is over.
    Finish,
}

/// What came of an action.
#[derive(Debug, Clone, PartialEq, Eq)]
pub enum FetchEvent {
    /// The certificates, DER-encoded, or `None` where one of the paths could
    /// not be read or decoded.
    Certificates(Option<Vec<Vec<u8>>>),
    /// Whether the cache file exists.
    CacheProbed(bool),
    /// The digest of the manifest, or `None` where the fetch failed.
    Manifest(Option<String>),
    /// What the digest file holds.
    StoredDigest(String),
    /// What was pulled, or `None` where the pull failed.
    Pulled(Option<PulledArtifact>),
    /// Whether the cache was written.
    Written(bool),
}

/// What a [`FetchEvent`] holds, as sequences.
pub enum FetchEventView {
    Certificates(Option<Seq<Seq<u8>>>),
    CacheProbed(bool),
    Manifest(Option<Seq<char>>),
    StoredDigest(Seq<char>),
    Pulled(Option<PulledArtifactView>),
    Written(bool),
}

impl View for FetchEvent {
    type V = FetchEventView;

    open spec fn view(&self) -> FetchEventView {
        match self {
            FetchEvent::Certificates(Some(certificates)) => FetchEventView::Certificates(
                Some(buffers(certificates@)),
            ),
            FetchEvent::Certificates(None) => FetchEventView::Certificates(None),
            FetchEvent::CacheProbed(found) => FetchEventView::CacheProbed(*found),
            FetchEvent::Manifest(digest) => FetchEventView::Manifest(opt_text(*digest)),
            FetchEvent::StoredDigest(digest) => FetchEventView::StoredDigest(digest@),
            FetchEvent::Pulled(Some(artifact)) => FetchEventView::Pulled(Some(artifact@)),
            FetchEvent::Pulled(None) => FetchEventView::Pulled(None),
            FetchEvent::Written(written) => FetchEventView::Written(*written),
        }
    }
}

/// How far a fetch has come.
pub enum Phase {
    /// The certificates are to be loaded.
    Certificates,
    /// The cache file is to be looked for.
    Probe,
    /// A cached copy exists; the manifest is to be fetched.
    Manifest,
    /// The registry reports the digest `remote`; the stored one is to be
    /// read.
    Digest { remote: Seq<char> },
    /// No current copy is cached; the content is to be pulled.
    Pull,
    /// The pulled content passed validation and is to be written.
    Write { content: Seq<u8>, digest: Option<Seq<char>> },
    /// The fetch is over: the cache file holds the artifact, or the fetch
    /// failed.
    Done(Result<(), FetchError>),
}

impl Phase {
    /// The action that a fetch in this phase asks for.
    pub open spec fn action(self) -> FetchAction {
        match self {
            Phase::Certificates => FetchAction::LoadCertificates,
            Phase::Probe => FetchAction::ProbeCache,
            Phase::Manifest => FetchAction::FetchManifest,
            Phase::Digest { .. } => FetchAction::ReadDigest,
            Phase::Pull => FetchAction::Pull,
            Phase::Write { .. } => FetchAction::WriteCache,
            Phase::Done(_) => FetchAction::Finish,
        }
    }

    /// The phase after a pull that returned `artifact`: a malformed artifact
    /// ends the fetch, an acceptable one is written where the cache is to be
    /// updated.
    pub open spec fn after_pull(cache: OciArtifactCacheUpdate, artifact: PulledArtifactView) -> Phase {
        if artifact.is_malformed() {
            Phase::Done(Err(FetchError::Validation { layers: artifact.layers.len() as usize }))
        } else if cache == OciArtifactCacheUpdate::Update {
            Phase::Write { content: artifact.content(), digest: artifact.digest }
        } else {
            Phase::Done(Ok(()))
        }
    }
}

/// What a fetch was asked for, fixed when the session starts.
#[derive(Debug, Clone, PartialEq, Eq)]
pub struct FetchRequest {
    /// The reference, normalized.
    pub normalized: String,
    /// The reference, parsed.
    pub reference: ImageReference,
    /// Where the cached copy lives.
    pub entry: CacheEntry,
    /// The protocol the registry is reached over.
    pub protocol: ClientProtocol,
    /// Files of certificates to trust besides the system's roots.
    pub ca_paths: Vec<String>,
    /// The credentials.
    pub auth: RegistryAuth,
    /// The layer media types that a pull accepts.
    pub accepted_media_types: Vec<String>,
    /// Whether a pull updates the cache.
    pub cache: OciArtifactCacheUpdate,
}

impl View for FetchRequest {
    type V = FetchRequestView;

    open spec fn view(&self) -> FetchRequestView {
        FetchRequestView {
            normalized: self.normalized@,
            reference: self.reference@,
            entry: self.entry@,
            protocol: self.protocol@,
            ca_paths: texts(self.ca_paths@),
            auth: self.auth@,
            accepted_media_types: texts(self.accepted_media_types@),
            cache: self.cache,
        }
    }
}

/// What a [`FetchRequest`] holds, as sequences.
pub struct FetchRequestView {
    /// The reference, normalized.
    pub normalized: Seq<char>,
    /// The reference, parsed.
    pub reference: ImageReferenceView,
    /// Where the cached copy lives.
    pub entry: CacheEntryView,
    /// The protocol the registry is reached over.
    pub protocol: ClientProtocolView,
    /// Files of certificates to trust besides the system's roots.
    pub ca_paths: Seq<Seq<char>>,
    /// The credentials.
    pub auth: RegistryAuthView,
    /// The layer media types that a pull accepts.
    pub accepted_media_types: Seq<Seq<char>>,
    /// Whether a pull updates the cache.
    pub cache: OciArtifactCacheUpdate,
}

/// A fetch in progress, as contracts see it.
pub struct SessionView {
    /// What was asked for.
    pub request: FetchRequestView,
    /// The certificates loaded from the additional CA paths.
    pub certificates: Seq<Seq<u8>>,
    /// How far the fetch has come.
    pub phase: Phase,
}

impl SessionView {
    /// The session that a request starts with: no certificates are loaded
    /// yet; they come first where the request names CA paths, else the fetch
    /// starts at the cache.
    pub open spec fn start(request: FetchRequestView) -> SessionView {
        SessionView {
            request,
            certificates: Seq::empty(),
            phase: if request.ca_paths.len() > 0 {
                Phase::Certificates
            } else {
                Phase::Probe
            },
        }
    }

    /// The session in another phase.
    pub open spec fn at(self, phase: Phase) -> SessionView {
        SessionView { phase, ..self }
    }

    /// The session after `event`. An event that does not answer the pending
    /// action changes nothing.
    pub open spec fn advance(self, event: FetchEventView) -> SessionView {
        match (self.phase, event) {
            (Phase::Certificates, FetchEventView::Certificates(Some(certificates))) => SessionView {
                certificates,
                phase: Phase::Probe,
                ..self
            },
            (Phase::Certificates, FetchEventView::Certificates(None)) => self.at(
                Phase::Done(Err(FetchError::CertLoad)),
            ),
            (Phase::Probe, FetchEventView::CacheProbed(found)) => self.at(
                if found {
                    Phase::Manifest
                } else {
                    Phase::Pull
                },
            ),
            (Phase::Manifest, FetchEventView::Manifest(Some(remote))) => self.at(
                Phase::Digest { remote },
            ),
            (Phase::Manifest, FetchEventView::Manifest(None)) => self.at(
                Phase::Done(Err(FetchError::ManifestFetch)),
            ),
            (Phase::Digest { remote }, FetchEventView::StoredDigest(local)) => self.at(
                if cache_hit(remote, local) {
                    Phase::Done(Ok(()))
                } else {
                    Phase::Pull
                },
            ),
            (Phase::Pull, FetchEventView::Pulled(Some(artifact))) => self.at(
                Phase::after_pull(self.request.cache, artifact),
            ),
            (Phase::Pull, FetchEventView::Pulled(None)) => self.at(
                Phase::Done(Err(FetchError::Pull)),
            ),
            (Phase::Write { .. }, FetchEventView::Written(written)) => self.at(
                Phase::Done(
                    if written {
                        Ok(())
                    } else {
                        Err(FetchError::CacheIo)
                    },
                ),
            ),
            _ => self,
        }
    }

    /// How the fetch ended, once it is over: the path of the cache file, or
    /// the failure.
    pub open spec fn outcome(self) -> Option<Result<Seq<char>, FetchError>> {
        match self.phase {
            Phase::Done(Ok(())) => Some(Ok(self.request.entry.cache_file)),
            Phase::Done(Err(e)) => Some(Err(e)),
            _ => None,
        }
    }
}

#[derive(Debug, PartialEq, Eq)]
enum Progress {
    Certificates,
    Probe,
    Manifest,
    Digest { remote: String },
    Pull,
    Write { content: Vec<u8>, digest: Option<String> },
    Done(Result<(), FetchError>),
}

impl View for Progress {
    type V = Phase;

    closed spec fn view(&self) -> Phase {
        match self {
            Progress::Certificates => Phase::Certificates,
            Progress::Probe => Phase::Probe,
            Progress::Manifest => Phase::Manifest,
            Progress::Digest { remote } => Phase::Digest { remote: remote@ },
            Progress::Pull => Phase::Pull,
            Progress::Write { content, digest } => Phase::Write {
                content: content@,
                digest: opt_text(*digest),
            },
            Progress::Done(outcome) => Phase::Done(*outcome),
        }
    }
}

/// A fetch in progress.
#[derive(Debug, PartialEq, Eq)]
pub struct FetchSession {
    request: FetchRequest,
    certificates: Vec<Vec<u8>>,
    progress: Progress,
}

impl View for FetchSession {
    type V = SessionView;

    closed spec fn view(&self) -> SessionView {
        SessionView {
            request: self.request@,
            certificates: buffers(self.certificates@),
            phase: self.progress@,
        }
    }
}

impl FetchSession {
    /// Starts a session for a request. The certificates come first where the
    /// request names CA paths; else the session starts at the cache.
    pub fn start(request: FetchRequest) -> (session: FetchSession)
        ensures
            session@ == SessionView::start(request@),
    {
        let progress = if request.ca_paths.len() > 0 {
            Progress::Certificates
        } else {
            Progress::Probe
        };
        let certificates: Vec<Vec<u8>> = Vec::new();
        proof {
            assert(buffers(certificates@) =~= Seq::<Seq<u8>>::empty());
        }
        FetchSession { request, certificates, progress }
    }

    /// Takes in what came of the pending action and moves on.
    pub fn advance(self, event: FetchEvent) -> (next: FetchSession)
        ensures
            next@ == self@.advance(event@),
    {
        let FetchSession { request, certificates, progress } = self;
        let (certificates, progress) = match progress {
            Progress::Certificates => match event {
                FetchEvent::Certificates(Some(loaded)) => (loaded, Progress::Probe),
                FetchEvent::Certificates(None) => (
                    certificates,
                    Progress::Done(Err(FetchError::CertLoad)),
                ),
                _ => (certificates, Progress::Certificates),
            },
            Progress::Probe => match event {
                FetchEvent::CacheProbed(true) => (certificates, Progress::Manifest),
                FetchEvent::CacheProbed(false) => (certificates, Progress::Pull),
                _ => (certificates, Progress::Probe),
            },
            Progress::Manifest => match event {
                FetchEvent::Manifest(Some(remote)) => (certificates, Progress::Digest { remote }),
                FetchEvent::Manifest(None) => (
                    certificates,
                    Progress::Done(Err(FetchError::ManifestFetch)),
                ),
                _ => (certificates, Progress::Manifest),
            },
            Progress::Digest { remote } => match event {
                FetchEvent::StoredDigest(local) => {
                    if is_cache_hit(remote.as_str(), local.as_str()) {
                        (certificates, Progress::Done(Ok(())))
                    } else {
                        (certificates, Progress::Pull)
                    }
                },
                _ => (certificates, Progress::Digest { remote }),
            },
            Progress::Pull => match event {
                FetchEvent::Pulled(Some(artifact)) => {
                    match artifact.validate() {
                        Err(e) => (certificates, Progress::Done(Err(e))),
                        Ok(()) => match request.cache {
                            OciArtifactCacheUpdate::Update => {
                                let content = artifact.content();
                                (certificates, Progress::Write { content, digest: artifact.digest })
                            },
                            _ => (certificates, Progress::Done(Ok(()))),
                        },
                    }
                },
                FetchEvent::Pulled(None) => (certificates, Progress::Done(Err(FetchError::Pull))),
                _ => (certificates, Progress::Pull),
            },
            Progress::Write { content, digest } => match event {
                FetchEvent::Written(true) => (certificates, Progress::Done(Ok(()))),
                FetchEvent::Written(false) => (
                    certificates,
                    Progress::Done(Err(FetchError::CacheIo)),
                ),
                _ => (certificates, Progress::Write { content, digest }),
            },
            Progress::Done(outcome) => (certificates, Progress::Done(outcome)),
        };
        FetchSession { request, certificates, progress }
    }

    /// What the fetch was asked for.
    pub fn request(&self) -> (request: &FetchRequest)
        ensures
            request@ == self@.request,
    {
        &self.request
    }

    /// The certificates that were loaded from the additional CA paths; none
    /// before they were loaded.
    pub fn certificates(&self) -> (certificates: &Vec<Vec<u8>>)
        ensures
            buffers(certificates@) == self@.certificates,
    {
        &self.certificates
    }

    /// What is to be written to the cache, where a write is pending: the
    /// content for the cache file and, where one is known, the digest for
    /// the digest file.
    pub fn pending_write(&self) -> (pending: Option<(&Vec<u8>, &Option<String>)>)
        ensures
            match pending {
                Some((content, digest)) => self@.phase == (Phase::Write {
                    content: content@,
                    digest: opt_text(*digest),
                }),
                None => !(self@.phase is Write),
            },
    {
        match &self.progress {
            Progress::Write { content, digest } => Some((content, digest)),
            _ => None,
        }
    }

    /// The action that the session is waiting for.
    pub fn action(&self) -> (action: FetchAction)
        ensures
            action == self@.phase.action(),
    {
        match &self.progress {
            Progress::Certificates => FetchAction::LoadCertificates,
            Progress::Probe => FetchAction::ProbeCache,
            Progress::Manifest => FetchAction::FetchManifest,
            Progress::Digest { .. } => FetchAction::ReadDigest,
            Progress::Pull => FetchAction::Pull,
            Progress::Write { .. } => FetchAction::WriteCache,
            Progress::Done(_) => FetchAction::Finish,
        }
    }

    /// How the fetch ended, once it is over: the path of the cache file, or
    /// the failure.
    pub fn outcome(&self) -> (outcome: Option<Result<String, FetchError>>)
        ensures
            match outcome {
                Some(Ok(path)) => self@.outcome() == Some(
                    Ok::<Seq<char>, FetchError>(path@),
                ),
                Some(Err(e)) => self@.outcome() == Some(Err::<Seq<char>, FetchError>(e)),
                None => self@.outcome() is None,
            },
    {
        match &self.progress {
            Progress::Done(Ok(())) => Some(Ok(self.request.entry.cache_file.clone())),
            Progress::Done(Err(e)) => Some(Err(*e)),
            _ => None,
        }
    }
}

/// A component that does not have exactly one layer is rejected whatever
/// its layers hold: the pull that returns it ends the fetch with a
/// validation error that names the number of layers, and nothing is written.
pub proof fn lemma_malformed_component_is_rejected(
    session: SessionView,
    artifact: PulledArtifactView,
)
    requires
        session.phase is Pull,
        artifact.is_component(),
        artifact.layers.len() != 1,
    ensures
        session.advance(FetchEventView::Pulled(Some(artifact))).outcome() == Some(
            Err::<Seq<char>, FetchError>(
                FetchError::Validation { layers: artifact.layers.len() as usize },
            ),
        ),
{
}

/// An artifact that is no component, or has exactly one layer, passes: the
/// fetch goes on to the write where the cache is updated and is over where
/// it is not.
pub proof fn lemma_other_artifacts_pass(session: SessionView, artifact: PulledArtifactView)
    requires
        session.phase is Pull,
        !artifact.is_component() || artifact.layers.len() == 1,
    ensures
        session.advance(FetchEventView::Pulled(Some(artifact))).phase == if session.request.cache
            == OciArtifactCacheUpdate::Update {
            Phase::Write { content: artifact.content(), digest: artifact.digest }
        } else {
            Phase::Done(Ok(()))
        },
{
}

} // verus!
