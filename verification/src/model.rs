//! A model of the registry and the cache directory, and what holds of whole
//! fetches that run against them.
//!
//! The model answers each action of a session the way a registry and a
//! writable cache directory would, and so turns a session into a run. The
//! lemmas here are about runs: that a fetch comes to an end, what the cache
//! holds after a pull, and that a second fetch finds what the first one
//! left.

use vstd::prelude::*;
use vstd::utf8::{decode_utf8, encode_utf8, encode_utf8_decode_utf8, encode_utf8_valid_utf8, valid_utf8};
use crate::artifact::PulledArtifactView;
use crate::cache::{cache_hit, lemma_cache_entry_files_differ, CacheEntryView};
use crate::error::FetchError;
use crate::fetcher::{FetchPolicy, OciArtifactCacheUpdate};
use crate::session::{FetchEventView, FetchRequestView, Phase, SessionView};

verus! {

/// What a registry serves for the reference of a fetch.
pub struct Registry {
    /// The digest that a manifest-only fetch reports, or `None` where that
    /// fetch fails.
    pub manifest: Option<Seq<char>>,
    /// What a full pull returns, or `None` where the pull fails.
    pub artifact: Option<PulledArtifactView>,
}

/// The surroundings of a fetch.
pub struct World {
    /// The registry.
    pub registry: Registry,
    /// The files in reach, by path.
    pub files: Map<Seq<char>, Seq<u8>>,
    /// What loading the additional certificates yields, or `None` where a
    /// path cannot be read or decoded.
    pub certificates: Option<Seq<Seq<u8>>>,
}

/// The text that reading the file at `path` yields: its content where the
/// file exists and holds text, else nothing.
pub open spec fn stored_text(files: Map<Seq<char>, Seq<u8>>, path: Seq<char>) -> Seq<char> {
    if files.contains_key(path) && valid_utf8(files[path]) {
        decode_utf8(files[path])
    } else {
        Seq::empty()
    }
}

/// The files after a cache write: the content file holds the content, and
/// the digest file holds the digest where one is known.
pub open spec fn written(
    files: Map<Seq<char>, Seq<u8>>,
    entry: CacheEntryView,
    content: Seq<u8>,
    digest: Option<Seq<char>>,
) -> Map<Seq<char>, Seq<u8>> {
    let with_content = files.insert(entry.cache_file, content);
    match digest {
        Some(d) => with_content.insert(entry.digest_file, encode_utf8(d)),
        None => with_content,
    }
}

/// A fetch under way in its surroundings, with a count of the requests that
/// went to the registry.
pub struct Run {
    /// The session.
    pub session: SessionView,
    /// The surroundings.
    pub world: World,
    /// How many full pulls were made.
    pub pulls: nat,
    /// How many manifest-only fetches were made.
    pub manifest_fetches: nat,
}

impl Run {
    /// A run that is about to begin.
    pub open spec fn new(session: SessionView, world: World) -> Run {
        Run { session, world, pulls: 0, manifest_fetches: 0 }
    }

    /// The run after the session took in `event`.
    pub open spec fn fed(self, event: FetchEventView) -> Run {
        Run { session: self.session.advance(event), ..self }
    }

    /// The run after the pending action was performed and its outcome
    /// reported. A run that is over stays as it is.
    pub open spec fn step(self) -> Run {
        let entry = self.session.request.entry;
        match self.session.phase {
            Phase::Certificates => self.fed(FetchEventView::Certificates(self.world.certificates)),
            Phase::Probe => self.fed(
                FetchEventView::CacheProbed(self.world.files.contains_key(entry.cache_file)),
            ),
            Phase::Manifest => Run {
                manifest_fetches: self.manifest_fetches + 1,
                ..self.fed(FetchEventView::Manifest(self.world.registry.manifest))
            },
            Phase::Digest { .. } => self.fed(
                FetchEventView::StoredDigest(stored_text(self.world.files, entry.digest_file)),
            ),
            Phase::Pull => Run {
                pulls: self.pulls + 1,
                ..self.fed(FetchEventView::Pulled(self.world.registry.artifact))
            },
            Phase::Write { content, digest } => Run {
                world: World {
                    files: written(self.world.files, entry, content, digest),
                    ..self.world
                },
                ..self.fed(FetchEventView::Written(true))
            },
            Phase::Done(_) => self,
        }
    }

    /// The run after six steps, which is as many as a fetch can take.
    pub open spec fn complete(self) -> Run {
        self.step().step().step().step().step().step()
    }
}

/// What a pull comes to: a failure where the registry serves nothing or
/// serves a malformed component, else the path of the cache file.
pub open spec fn pull_outcome(request: FetchRequestView, world: World) -> Result<
    Seq<char>,
    FetchError,
> {
    match world.registry.artifact {
        None => Err(FetchError::Pull),
        Some(artifact) => if artifact.is_malformed() {
            Err(FetchError::Validation { layers: artifact.layers.len() as usize })
        } else {
            Ok(request.entry.cache_file)
        },
    }
}

/// What a fetch of `request` comes to in `world`.
///
/// Certificates that are asked for and cannot be loaded end the fetch.
/// Where the cache file exists the manifest is fetched, and a failure to
/// fetch it ends the fetch; a copy whose stored digest is the registry's is
/// returned as it is. In every other case the content is pulled.
pub open spec fn fetch_outcome(request: FetchRequestView, world: World) -> Result<
    Seq<char>,
    FetchError,
> {
    if request.ca_paths.len() > 0 && world.certificates is None {
        Err(FetchError::CertLoad)
    } else if world.files.contains_key(request.entry.cache_file) {
        match world.registry.manifest {
            None => Err(FetchError::ManifestFetch),
            Some(remote) => if cache_hit(
                remote,
                stored_text(world.files, request.entry.digest_file),
            ) {
                Ok(request.entry.cache_file)
            } else {
                pull_outcome(request, world)
            },
        }
    } else {
        pull_outcome(request, world)
    }
}

/// Whether a session is at its beginning.
pub open spec fn at_start(session: SessionView) -> bool {
    session.phase is Certificates || session.phase is Probe
}

/// Every fetch comes to an end: six steps after its start the session is
/// over, whatever the registry and the files hold.
pub proof fn lemma_fetch_completes(session: SessionView, world: World)
    requires
        at_start(session),
    ensures
        Run::new(session, world).complete().session.phase is Done,
        Run::new(session, world).complete().session.request == session.request,
{
    let r0 = Run::new(session, world);
    let r1 = r0.step();
    let r2 = r1.step();
    let r3 = r2.step();
    let r4 = r3.step();
    let r5 = r4.step();
    let r6 = r5.step();
    assert(r1.session.phase is Probe || r1.session.phase is Manifest || r1.session.phase is Pull
        || r1.session.phase is Done);
    assert(r2.session.phase is Manifest || r2.session.phase is Digest || r2.session.phase is Pull
        || r2.session.phase is Write || r2.session.phase is Done);
    assert(r3.session.phase is Digest || r3.session.phase is Pull || r3.session.phase is Write
        || r3.session.phase is Done);
    assert(r4.session.phase is Pull || r4.session.phase is Write || r4.session.phase is Done);
    assert(r5.session.phase is Write || r5.session.phase is Done);
    assert(r6.session.phase is Done);
}

/// A fetch ends the way [`fetch_outcome`] says, whatever the registry and the
/// files hold.
pub proof fn lemma_fetch_outcome(request: FetchRequestView, world: World)
    ensures
        Run::new(SessionView::start(request), world).complete().session.outcome() == Some(
            fetch_outcome(request, world),
        ),
{
    let r0 = Run::new(SessionView::start(request), world);
    let r1 = r0.step();
    let r2 = r1.step();
    let r3 = r2.step();
    let r4 = r3.step();
    let r5 = r4.step();
    let r6 = r5.step();
    lemma_run_keeps_request(r0);
    lemma_run_keeps_request(r1);
    lemma_run_keeps_request(r2);
    lemma_run_keeps_request(r3);
    lemma_run_keeps_request(r4);
    lemma_run_keeps_request(r5);
    let probe = if request.ca_paths.len() > 0 {
        r1
    } else {
        r0
    };
    if request.ca_paths.len() > 0 && world.certificates is None {
        assert(r1.session.phase == Phase::Done(Err(FetchError::CertLoad)));
    } else {
        assert(probe.session.phase is Probe);
        assert(probe.world == world);
        lemma_probe_outcome(probe);
        lemma_after_probe_is_over(probe);
        lemma_run_keeps_request(after_probe(probe));
    }
}

/// From the look into the cache on, a fetch ends the way [`fetch_outcome`]
/// says.
pub proof fn lemma_probe_outcome(run: Run)
    requires
        run.session.phase is Probe,
    ensures
        after_probe(run).session.outcome() == Some(
            if run.world.files.contains_key(run.session.request.entry.cache_file) {
                match run.world.registry.manifest {
                    None => Err(FetchError::ManifestFetch),
                    Some(remote) => if cache_hit(
                        remote,
                        stored_text(run.world.files, run.session.request.entry.digest_file),
                    ) {
                        Ok(run.session.request.entry.cache_file)
                    } else {
                        pull_outcome(run.session.request, run.world)
                    },
                }
            } else {
                pull_outcome(run.session.request, run.world)
            },
        ),
{
    let r1 = run.step();
    let r2 = r1.step();
    let r3 = r2.step();
    let r4 = r3.step();
    lemma_run_keeps_request(run);
    lemma_run_keeps_request(r1);
    lemma_run_keeps_request(r2);
    lemma_run_keeps_request(r3);
    lemma_run_keeps_request(r4);
    lemma_phases_after_probe(run);
}

/// What a session that `fetch_path` starts is like: it is at its beginning,
/// it carries the request as given, and its cache entry is the one of the
/// normalized reference, with two different files.
pub proof fn lemma_started_session(
    policy: FetchPolicy,
    output_dir: Seq<char>,
    img: Seq<char>,
    accepted_media_types: Seq<Seq<char>>,
    cache: OciArtifactCacheUpdate,
    session: SessionView,
)
    requires
        policy.fetch_path(output_dir, img, accepted_media_types, cache) == Ok::<
            SessionView,
            FetchError,
        >(session),
    ensures
        at_start(session),
        session.request.cache == cache,
        session.request.accepted_media_types == accepted_media_types,
        session.request.entry == crate::cache::cache_entry(output_dir, crate::text::lowercase(img)),
        session.request.entry.cache_file != session.request.entry.digest_file,
{
    lemma_cache_entry_files_differ(output_dir, crate::text::lowercase(img));
}

/// What the cache holds after a fetch that went to the registry for the
/// content and succeeded: the cache file holds the bytes of the pulled
/// layers, one layer after the other in manifest order, and the digest file
/// holds the digest that came with them, where one did.
pub proof fn lemma_cache_holds_pulled_content(session: SessionView, world: World)
    requires
        at_start(session),
        session.request.cache == OciArtifactCacheUpdate::Update,
        session.request.entry.cache_file != session.request.entry.digest_file,
        Run::new(session, world).complete().pulls > 0,
        Run::new(session, world).complete().session.outcome() is Some,
        Run::new(session, world).complete().session.outcome()->0 is Ok,
    ensures
        world.registry.artifact is Some,
        Run::new(session, world).complete().pulls == 1,
        Run::new(session, world).complete().world.files.contains_key(
            session.request.entry.cache_file,
        ),
        Run::new(session, world).complete().world.files[session.request.entry.cache_file]
            == world.registry.artifact->0.content(),
        world.registry.artifact->0.digest matches Some(d) ==> stored_text(
            Run::new(session, world).complete().world.files,
            session.request.entry.digest_file,
        ) == d,
{
    let r0 = Run::new(session, world);
    let r1 = r0.step();
    let r2 = r1.step();
    let r3 = r2.step();
    let r4 = r3.step();
    let r5 = r4.step();
    lemma_run_keeps_request(r0);
    lemma_run_keeps_request(r1);
    lemma_run_keeps_request(r2);
    lemma_run_keeps_request(r3);
    lemma_run_keeps_request(r4);
    lemma_run_keeps_request(r5);
    if r0.session.phase is Pull {
        lemma_pull_then_write(r0);
    }
    if r1.session.phase is Pull {
        lemma_pull_then_write(r1);
    }
    if r2.session.phase is Pull {
        lemma_pull_then_write(r2);
    }
    if r3.session.phase is Pull {
        lemma_pull_then_write(r3);
    }
    if r4.session.phase is Pull {
        lemma_pull_then_write(r4);
    }
    lemma_fetch_completes(session, world);
}

/// A step changes neither the request nor the registry nor the
/// certificates, and files change in a write alone.
pub proof fn lemma_run_keeps_request(run: Run)
    ensures
        run.step().session.request == run.session.request,
        run.step().world.registry == run.world.registry,
        run.step().world.certificates == run.world.certificates,
        !(run.session.phase is Write) ==> run.step().world == run.world,
        !(run.session.phase is Pull) ==> run.step().pulls == run.pulls,
        !(run.session.phase is Manifest) ==> run.step().manifest_fetches == run.manifest_fetches,
        run.session.phase is Done ==> run.step() == run,
{
}

/// A pull that is to update the cache is followed, where the fetch goes on
/// to succeed, by the write of what was pulled, and the fetch is over after
/// that.
pub proof fn lemma_pull_then_write(run: Run)
    requires
        run.session.phase is Pull,
        run.session.request.cache == OciArtifactCacheUpdate::Update,
        run.session.request.entry.cache_file != run.session.request.entry.digest_file,
    ensures
        run.step().pulls == run.pulls + 1,
        run.step().session.phase is Write || run.step().session.phase is Done,
        run.step().session.phase matches Phase::Done(outcome) ==> outcome is Err,
        run.step().session.phase is Write ==> {
            &&& run.world.registry.artifact matches Some(artifact)
            &&& run.step().step().session.phase == Phase::Done(Ok(()))
            &&& run.step().step().pulls == run.pulls + 1
            &&& run.step().step().world.files.contains_key(run.session.request.entry.cache_file)
            &&& run.step().step().world.files[run.session.request.entry.cache_file]
                == artifact.content()
            &&& artifact.digest matches Some(d) ==> stored_text(
                run.step().step().world.files,
                run.session.request.entry.digest_file,
            ) == d
        },
{
    let next = run.step();
    if next.session.phase is Write {
        let artifact = run.world.registry.artifact->0;
        let entry = run.session.request.entry;
        let files = next.step().world.files;
        assert(files == written(run.world.files, entry, artifact.content(), artifact.digest));
        match artifact.digest {
            Some(d) => {
                encode_utf8_valid_utf8(d);
                encode_utf8_decode_utf8(d);
                assert(files[entry.digest_file] == encode_utf8(d));
            },
            None => {},
        }
    }
}

/// Whether the cached copy at `entry` is current for a registry that
/// reports `digest`: the content file exists and the digest file holds that
/// digest.
pub open spec fn is_current(
    files: Map<Seq<char>, Seq<u8>>,
    entry: CacheEntryView,
    digest: Seq<char>,
) -> bool {
    files.contains_key(entry.cache_file) && cache_hit(digest, stored_text(files, entry.digest_file))
}

/// The five steps that follow the look into the cache.
pub open spec fn after_probe(run: Run) -> Run {
    run.step().step().step().step().step()
}

/// A fetch that finds a current copy ends with one manifest-only fetch and
/// no pull, and leaves the files as they are.
pub proof fn lemma_current_copy_is_hit(run: Run, digest: Seq<char>)
    requires
        run.session.phase is Probe,
        run.world.registry.manifest == Some(digest),
        is_current(run.world.files, run.session.request.entry, digest),
    ensures
        after_probe(run).session.phase == Phase::Done(Ok(())),
        after_probe(run).session.request == run.session.request,
        after_probe(run).pulls == run.pulls,
        after_probe(run).manifest_fetches == run.manifest_fetches + 1,
        after_probe(run).world == run.world,
{
    let r1 = run.step();
    let r2 = r1.step();
    let r3 = r2.step();
    assert(r1.session.phase is Manifest);
    assert(r2.session.phase == Phase::Digest { remote: digest });
    assert(r3.session.phase == Phase::Done(Ok(())));
    lemma_run_keeps_request(r3);
    lemma_run_keeps_request(r3.step());
}

/// A fetch that updates the cache and succeeds leaves a current copy
/// behind, where the registry reports a digest and the pulled artifact
/// carries that same digest.
pub proof fn lemma_success_leaves_current_copy(run: Run, digest: Seq<char>)
    requires
        run.session.phase is Probe,
        run.session.request.cache == OciArtifactCacheUpdate::Update,
        run.session.request.entry.cache_file != run.session.request.entry.digest_file,
        digest.len() > 0,
        run.world.registry.manifest == Some(digest),
        run.world.registry.artifact matches Some(artifact) ==> artifact.digest == Some(digest),
        after_probe(run).session.phase == Phase::Done(Ok(())),
    ensures
        is_current(after_probe(run).world.files, run.session.request.entry, digest),
        after_probe(run).world.registry == run.world.registry,
        after_probe(run).world.certificates == run.world.certificates,
{
    let r1 = run.step();
    let r2 = r1.step();
    let r3 = r2.step();
    let r4 = r3.step();
    let r5 = r4.step();
    lemma_run_keeps_request(run);
    lemma_run_keeps_request(r1);
    lemma_run_keeps_request(r2);
    lemma_run_keeps_request(r3);
    lemma_run_keeps_request(r4);
    if r1.session.phase is Pull {
        lemma_pull_then_write(r1);
    } else {
        assert(r1.session.phase is Manifest);
        assert(r2.session.phase == Phase::Digest { remote: digest });
        if r3.session.phase is Pull {
            lemma_pull_then_write(r3);
        } else {
            assert(r3.session.phase == Phase::Done(Ok(())));
            assert(r5.world == run.world);
        }
    }
}

/// Fetching twice pulls at most once. Where the first fetch updates the
/// cache and succeeds, and the registry still reports the digest under which
/// the content was served, a second fetch of the same request makes one
/// manifest-only fetch and no pull, ends the way the first did, with the
/// same path, and leaves the files alone.
pub proof fn lemma_second_fetch_hits_cache(session: SessionView, world: World, digest: Seq<char>)
    requires
        at_start(session),
        session.request.cache == OciArtifactCacheUpdate::Update,
        session.request.entry.cache_file != session.request.entry.digest_file,
        digest.len() > 0,
        world.registry.manifest == Some(digest),
        world.registry.artifact matches Some(artifact) ==> artifact.digest == Some(digest),
        Run::new(session, world).complete().session.phase == Phase::Done(Ok(())),
    ensures
        ({
            let first = Run::new(session, world).complete();
            let second = Run::new(session, first.world).complete();
            &&& first.pulls <= 1
            &&& second.pulls == 0
            &&& second.manifest_fetches == 1
            &&& second.session.outcome() == first.session.outcome()
            &&& second.session.outcome() == Some(
                Ok::<Seq<char>, FetchError>(session.request.entry.cache_file),
            )
            &&& second.world == first.world
        }),
{
    let r0 = Run::new(session, world);
    let first = r0.complete();
    lemma_fetch_completes(session, world);
    lemma_run_keeps_request(r0);
    // The first fetch, from the look into the cache on.
    let probe = if session.phase is Probe {
        r0
    } else {
        r0.step()
    };
    assert(probe.session.phase is Probe) by {
        if session.phase is Certificates {
            assert(r0.step().session.phase is Probe || r0.step().session.phase is Done);
            if r0.step().session.phase is Done {
                lemma_done_is_final(r0.step());
            }
        }
    }
    assert(first == after_probe(probe)) by {
        lemma_after_probe_is_over(probe);
        lemma_run_keeps_request(after_probe(probe));
    }
    lemma_success_leaves_current_copy(probe, digest);
    lemma_first_pulls_at_most_once(probe);
    // The second fetch, in what the first one left.
    let s0 = Run::new(session, first.world);
    let again = if session.phase is Probe {
        s0
    } else {
        s0.step()
    };
    lemma_run_keeps_request(s0);
    assert(again.session.phase is Probe);
    lemma_current_copy_is_hit(again, digest);
    lemma_run_keeps_request(after_probe(again));
}

/// Five steps after the look into the cache the fetch is over.
pub proof fn lemma_after_probe_is_over(run: Run)
    requires
        run.session.phase is Probe,
    ensures
        after_probe(run).session.phase is Done,
        after_probe(run).step() == after_probe(run),
{
    lemma_phases_after_probe(run);
}

/// The phases that a fetch passes after the look into the cache: the
/// manifest or the pull first, and the end after five steps at the latest.
pub proof fn lemma_phases_after_probe(run: Run)
    requires
        run.session.phase is Probe,
    ensures
        run.step().session.phase is Manifest || run.step().session.phase is Pull,
        run.step().step().session.phase is Digest || run.step().step().session.phase is Write
            || run.step().step().session.phase is Done,
        run.step().step().step().session.phase is Pull
            || run.step().step().step().session.phase is Done,
        run.step().step().step().step().session.phase is Write
            || run.step().step().step().step().session.phase is Done,
        after_probe(run).session.phase is Done,
{
}

/// A fetch that is over stays over, however many steps follow.
pub proof fn lemma_done_is_final(run: Run)
    requires
        run.session.phase is Done,
    ensures
        run.step() == run,
        after_probe(run) == run,
{
}

/// From the look into the cache on, a fetch pulls at most once.
pub proof fn lemma_first_pulls_at_most_once(run: Run)
    requires
        run.session.phase is Probe,
    ensures
        after_probe(run).pulls <= run.pulls + 1,
{
    let r1 = run.step();
    let r2 = r1.step();
    let r3 = r2.step();
    let r4 = r3.step();
    lemma_run_keeps_request(run);
    lemma_run_keeps_request(r1);
    lemma_run_keeps_request(r2);
    lemma_run_keeps_request(r3);
    lemma_run_keeps_request(r4);
    lemma_phases_after_probe(run);
}

} // verus!
