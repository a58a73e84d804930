//! The fetcher and the policy it carries.

use vstd::prelude::*;
use crate::artifact::{
    component_layer_type, wasm_layer_media_type, OCI_MEDIA_TYPE, PROVIDER_ARCHIVE_MEDIA_TYPE,
    WASM_MEDIA_TYPE,
};
use crate::cache::{cache_entry, CacheEntry};
use crate::error::FetchError;
use crate::reference::{
    check_policy, normalize, parsed_reference, policy_allows, ImageReference, ImageReferenceView,
};
use crate::session::{FetchRequest, FetchRequestView, FetchSession, SessionView};
use crate::text::{copy_texts, lowercase, own_texts, slices, texts};
use crate::transport::{client_protocol, protocol_for};

verus! {

/// Whether to update the artifact cache after a pull.
#[derive(Debug, Clone, Copy, PartialEq, Eq, Structural)]
#[non_exhaustive]
pub enum OciArtifactCacheUpdate {
    /// Leave the cache as it is.
    Ignore,
    /// Store what was pulled.
    Update,
}

impl Default for OciArtifactCacheUpdate {
    fn default() -> (update: OciArtifactCacheUpdate)
        ensures
            update == OciArtifactCacheUpdate::Ignore,
    {
        OciArtifactCacheUpdate::Ignore
    }
}

/// How a fetch authenticates to a registry.
#[derive(Debug, Clone, PartialEq, Eq)]
pub enum RegistryAuth {
    /// No credentials.
    Anonymous,
    /// A user name and a password.
    Basic(String, String),
}

/// What a [`RegistryAuth`] holds, as character sequences.
pub enum RegistryAuthView {
    Anonymous,
    Basic(Seq<char>, Seq<char>),
}

impl View for RegistryAuth {
    type V = RegistryAuthView;

    open spec fn view(&self) -> RegistryAuthView {
        match self {
            RegistryAuth::Anonymous => RegistryAuthView::Anonymous,
            RegistryAuth::Basic(user, password) => RegistryAuthView::Basic(user@, password@),
        }
    }
}

impl RegistryAuth {
    /// A copy of these credentials.
    pub fn duplicate(&self) -> (copy: RegistryAuth)
        ensures
            copy == *self,
    {
        match self {
            RegistryAuth::Anonymous => RegistryAuth::Anonymous,
            RegistryAuth::Basic(user, password) => RegistryAuth::Basic(
                user.clone(),
                password.clone(),
            ),
        }
    }
}

/// The policy of a fetcher: what it allows and how it authenticates.
pub struct FetchPolicy {
    /// Whether references that end in `:latest` are fetched.
    pub allow_latest: bool,
    /// Whether the registry of a reference may be reached without TLS.
    pub allow_insecure: bool,
    /// Files of certificates that are trusted besides the system's roots.
    pub additional_ca_paths: Seq<Seq<char>>,
    /// The credentials.
    pub auth: RegistryAuthView,
}

impl FetchPolicy {
    /// The most restrictive policy: no floating tags, TLS everywhere, no
    /// credentials, no certificates beyond the system's.
    pub open spec fn restrictive() -> FetchPolicy {
        FetchPolicy {
            allow_latest: false,
            allow_insecure: false,
            additional_ca_paths: Seq::empty(),
            auth: RegistryAuthView::Anonymous,
        }
    }
}

/// The layer media types that a component may have.
pub open spec fn component_media_types() -> Seq<Seq<char>> {
    seq![WASM_MEDIA_TYPE@, OCI_MEDIA_TYPE@, component_layer_type()]
}

/// The layer media types that a provider archive may have.
pub open spec fn provider_media_types() -> Seq<Seq<char>> {
    seq![PROVIDER_ARCHIVE_MEDIA_TYPE@, OCI_MEDIA_TYPE@]
}

impl FetchPolicy {
    /// The request for a fetch of the parsed reference: the cache entry
    /// follows from the normalized reference, the protocol from the
    /// reference's registry, the rest from the policy and the caller.
    pub open spec fn request(
        self,
        output_dir: Seq<char>,
        normalized: Seq<char>,
        reference: ImageReferenceView,
        accepted_media_types: Seq<Seq<char>>,
        cache: OciArtifactCacheUpdate,
    ) -> FetchRequestView {
        FetchRequestView {
            normalized,
            reference,
            entry: cache_entry(output_dir, normalized),
            protocol: protocol_for(self.allow_insecure, reference.registry),
            ca_paths: self.additional_ca_paths,
            auth: self.auth,
            accepted_media_types,
            cache,
        }
    }

    /// The session that a fetch of the parsed reference starts with.
    pub open spec fn session(
        self,
        output_dir: Seq<char>,
        normalized: Seq<char>,
        reference: ImageReferenceView,
        accepted_media_types: Seq<Seq<char>>,
        cache: OciArtifactCacheUpdate,
    ) -> SessionView {
        SessionView::start(
            self.request(output_dir, normalized, reference, accepted_media_types, cache),
        )
    }

    /// What a fetch of a normalized reference starts with: a policy
    /// violation where the reference ends in `:latest` and the policy does
    /// not allow it, else an invalid reference where it does not parse, else
    /// a session.
    pub open spec fn fetch_normalized(
        self,
        output_dir: Seq<char>,
        normalized: Seq<char>,
        accepted_media_types: Seq<Seq<char>>,
        cache: OciArtifactCacheUpdate,
    ) -> Result<SessionView, FetchError> {
        if !policy_allows(self.allow_latest, normalized) {
            Err(FetchError::PolicyViolation)
        } else {
            match parsed_reference(normalized) {
                Some(reference) => Ok(
                    self.session(output_dir, normalized, reference, accepted_media_types, cache),
                ),
                None => Err(FetchError::InvalidReference),
            }
        }
    }

    /// What a fetch of a reference starts with: the reference is normalized
    /// before anything else is done with it.
    pub open spec fn fetch_path(
        self,
        output_dir: Seq<char>,
        img: Seq<char>,
        accepted_media_types: Seq<Seq<char>>,
        cache: OciArtifactCacheUpdate,
    ) -> Result<SessionView, FetchError> {
        self.fetch_normalized(output_dir, lowercase(img), accepted_media_types, cache)
    }
}

/// Whether `started` is what the model says a fetch starts with.
pub open spec fn starts_as(
    started: Result<FetchSession, FetchError>,
    expected: Result<SessionView, FetchError>,
) -> bool {
    match started {
        Ok(session) => expected == Ok::<SessionView, FetchError>(session@),
        Err(e) => expected == Err::<SessionView, FetchError>(e),
    }
}

/// Registry settings as the host's configuration holds them.
#[derive(Debug, Clone)]
pub struct RegistryConfig {
    /// The credentials.
    pub auth: RegistryAuth,
    /// Whether references that end in `:latest` are fetched.
    pub allow_latest: bool,
    /// Whether the registry of a reference may be reached without TLS.
    pub allow_insecure: bool,
    /// Files of certificates that are trusted besides the system's roots.
    pub additional_ca_paths: Vec<String>,
}

impl View for RegistryConfig {
    type V = FetchPolicy;

    open spec fn view(&self) -> FetchPolicy {
        FetchPolicy {
            allow_latest: self.allow_latest,
            allow_insecure: self.allow_insecure,
            additional_ca_paths: texts(self.additional_ca_paths@),
            auth: self.auth@,
        }
    }
}

impl Default for RegistryConfig {
    fn default() -> (config: RegistryConfig)
        ensures
            config@ == FetchPolicy::restrictive(),
    {
        let config = RegistryConfig {
            auth: RegistryAuth::Anonymous,
            allow_latest: false,
            allow_insecure: false,
            additional_ca_paths: Vec::new(),
        };
        proof {
            assert(texts(config.additional_ca_paths@) =~= Seq::<Seq<char>>::empty());
        }
        config
    }
}

/// Fetches OCI artifacts under a fixed policy.
#[derive(Debug, Clone)]
pub struct OciFetcher {
    additional_ca_paths: Vec<String>,
    allow_latest: bool,
    allow_insecure: bool,
    auth: RegistryAuth,
}

impl View for OciFetcher {
    type V = FetchPolicy;

    closed spec fn view(&self) -> FetchPolicy {
        FetchPolicy {
            allow_latest: self.allow_latest,
            allow_insecure: self.allow_insecure,
            additional_ca_paths: texts(self.additional_ca_paths@),
            auth: self.auth@,
        }
    }
}

impl Default for OciFetcher {
    fn default() -> (fetcher: OciFetcher)
        ensures
            fetcher@ == FetchPolicy::restrictive(),
    {
        let fetcher = OciFetcher {
            additional_ca_paths: Vec::new(),
            allow_latest: false,
            allow_insecure: false,
            auth: RegistryAuth::Anonymous,
        };
        proof {
            assert(texts(fetcher.additional_ca_paths@) =~= Seq::<Seq<char>>::empty());
        }
        fetcher
    }
}

impl OciFetcher {
    /// A fetcher with the policy that `config` holds.
    pub fn from_config(config: &RegistryConfig) -> (fetcher: OciFetcher)
        ensures
            fetcher@ == config@,
    {
        OciFetcher {
            auth: config.auth.duplicate(),
            allow_latest: config.allow_latest,
            allow_insecure: config.allow_insecure,
            additional_ca_paths: copy_texts(config.additional_ca_paths.as_slice()),
        }
    }

    /// Replaces the additional CA paths and keeps the rest of the policy.
    pub fn with_additional_ca_paths(self, paths: &[String]) -> (fetcher: OciFetcher)
        ensures
            fetcher@ == (FetchPolicy { additional_ca_paths: texts(paths@), ..self@ }),
    {
        let mut fetcher = self;
        fetcher.additional_ca_paths = copy_texts(paths);
        fetcher
    }

    /// Starts the fetch of a reference that has been normalized and parsed:
    /// derives the cache entry and the transport, and fixes the request.
    pub fn begin(
        &self,
        output_dir: &str,
        normalized: &str,
        reference: ImageReference,
        accepted_media_types: Vec<&str>,
        cache: OciArtifactCacheUpdate,
    ) -> (session: FetchSession)
        ensures
            session@ == self@.session(
                output_dir@,
                normalized@,
                reference@,
                slices(accepted_media_types@),
                cache,
            ),
    {
        let entry = CacheEntry::locate(output_dir, normalized);
        let protocol = client_protocol(self.allow_insecure, &reference);
        FetchSession::start(
            FetchRequest {
                normalized: normalized.to_owned(),
                reference,
                entry,
                protocol,
                ca_paths: copy_texts(self.additional_ca_paths.as_slice()),
                auth: self.auth.duplicate(),
                accepted_media_types: own_texts(&accepted_media_types),
                cache,
            },
        )
    }

    /// Starts the fetch of a normalized reference: checks it against the
    /// policy, then parses it.
    pub fn fetch_normalized(
        &self,
        output_dir: &str,
        normalized: &str,
        accepted_media_types: Vec<&str>,
        cache: OciArtifactCacheUpdate,
    ) -> (started: Result<FetchSession, FetchError>)
        ensures
            starts_as(
                started,
                self@.fetch_normalized(
                    output_dir@,
                    normalized@,
                    slices(accepted_media_types@),
                    cache,
                ),
            ),
    {
        match check_policy(normalized, self.allow_latest) {
            Err(e) => Err(e),
            Ok(()) => match ImageReference::parse(normalized) {
                Err(e) => Err(e),
                Ok(reference) => Ok(
                    self.begin(output_dir, normalized, reference, accepted_media_types, cache),
                ),
            },
        }
    }

    /// Starts the fetch of `img` into the cache directory `output_dir`.
    ///
    /// The reference is lowercased first. One that ends in `:latest` is
    /// refused unless the policy allows floating tags; one that does not
    /// parse is refused as invalid. Otherwise the session that is returned
    /// leads through the fetch.
    pub fn fetch_path(
        &self,
        output_dir: &str,
        img: &str,
        accepted_media_types: Vec<&str>,
        cache: OciArtifactCacheUpdate,
    ) -> (started: Result<FetchSession, FetchError>)
        ensures
            starts_as(
                started,
                self@.fetch_path(output_dir@, img@, slices(accepted_media_types@), cache),
            ),
    {
        let normalized = normalize(img);
        self.fetch_normalized(output_dir, normalized.as_str(), accepted_media_types, cache)
    }

    /// Starts the fetch of a component: module and component layers and
    /// generic image layers are accepted, and the cache is updated.
    pub fn fetch_component(&self, output_dir: &str, oci_ref: &str) -> (started: Result<
        FetchSession,
        FetchError,
    >)
        ensures
            starts_as(
                started,
                self@.fetch_path(
                    output_dir@,
                    oci_ref@,
                    component_media_types(),
                    OciArtifactCacheUpdate::Update,
                ),
            ),
    {
        let mut accepted: Vec<&str> = Vec::new();
        accepted.push(WASM_MEDIA_TYPE);
        accepted.push(OCI_MEDIA_TYPE);
        accepted.push(wasm_layer_media_type());
        proof {
            assert(slices(accepted@) =~= component_media_types());
        }
        self.fetch_path(output_dir, oci_ref, accepted, OciArtifactCacheUpdate::Update)
    }

    /// Starts the fetch of a provider archive: archive layers and generic
    /// image layers are accepted, and the cache is updated.
    pub fn fetch_provider(&self, output_dir: &str, oci_ref: &str) -> (started: Result<
        FetchSession,
        FetchError,
    >)
        ensures
            starts_as(
                started,
                self@.fetch_path(
                    output_dir@,
                    oci_ref@,
                    provider_media_types(),
                    OciArtifactCacheUpdate::Update,
                ),
            ),
    {
        let mut accepted: Vec<&str> = Vec::new();
        accepted.push(PROVIDER_ARCHIVE_MEDIA_TYPE);
        accepted.push(OCI_MEDIA_TYPE);
        proof {
            assert(slices(accepted@) =~= provider_media_types());
        }
        self.fetch_path(output_dir, oci_ref, accepted, OciArtifactCacheUpdate::Update)
    }

    /// Whether references that end in `:latest` are fetched.
    pub fn allow_latest(&self) -> (allowed: bool)
        ensures
            allowed == self@.allow_latest,
    {
        self.allow_latest
    }

    /// Whether the registry of a reference may be reached without TLS.
    pub fn allow_insecure(&self) -> (allowed: bool)
        ensures
            allowed == self@.allow_insecure,
    {
        self.allow_insecure
    }

    /// The files of certificates that are trusted besides the system's roots.
    pub fn additional_ca_paths(&self) -> (paths: &Vec<String>)
        ensures
            texts(paths@) == self@.additional_ca_paths,
    {
        &self.additional_ca_paths
    }

    /// The credentials.
    pub fn auth(&self) -> (auth: &RegistryAuth)
        ensures
            auth@ == self@.auth,
    {
        &self.auth
    }
}

/// A fetcher from a borrowed configuration is a copy of it: it holds the
/// configuration's flags, its paths in their order and its credentials, and
/// the configuration stays as it is.
impl From<&RegistryConfig> for OciFetcher {
    fn from(config: &RegistryConfig) -> (fetcher: OciFetcher)
        ensures
            fetcher@ == config@,
    {
        OciFetcher::from_config(config)
    }
}

/// The copy holds what the configuration holds, which the conversion itself
/// ensures. That the copied strings are the very values of their sources is
/// not known of a copy, so no value is named here for the conversion to
/// obey.
impl vstd::std_specs::convert::FromSpecImpl<&RegistryConfig> for OciFetcher {
    open spec fn obeys_from_spec() -> bool {
        false
    }

    open spec fn from_spec(config: &RegistryConfig) -> OciFetcher {
        arbitrary()
    }
}

/// A fetcher from a configuration takes over what the configuration holds.
impl From<RegistryConfig> for OciFetcher {
    fn from(config: RegistryConfig) -> (fetcher: OciFetcher)
        ensures
            fetcher@ == config@,
    {
        OciFetcher {
            auth: config.auth,
            allow_latest: config.allow_latest,
            allow_insecure: config.allow_insecure,
            additional_ca_paths: config.additional_ca_paths,
        }
    }
}

impl vstd::std_specs::convert::FromSpecImpl<RegistryConfig> for OciFetcher {
    open spec fn obeys_from_spec() -> bool {
        true
    }

    closed spec fn from_spec(config: RegistryConfig) -> OciFetcher {
        OciFetcher {
            auth: config.auth,
            allow_latest: config.allow_latest,
            allow_insecure: config.allow_insecure,
            additional_ca_paths: config.additional_ca_paths,
        }
    }
}

/// Converting a configuration into a fetcher keeps its policy.
pub proof fn lemma_from_config_keeps_policy(config: RegistryConfig)
    ensures
        <OciFetcher as vstd::std_specs::convert::FromSpec<RegistryConfig>>::from_spec(config)@
            == config@,
{
}

} // verus!
