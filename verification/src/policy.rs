//! What the policy of a fetcher does, and does not do, to a fetch.

use vstd::prelude::*;
use crate::cache::cache_entry;
use crate::error::FetchError;
use crate::fetcher::{FetchPolicy, OciArtifactCacheUpdate};
use crate::reference::is_latest;
use crate::session::SessionView;
use crate::text::lowercase;
use crate::transport::{lemma_insecure_access_is_scoped, uses_tls};

verus! {

/// The latest-tag policy bears on references that end in `:latest` and on no
/// others: any other reference starts the same fetch, or fails the same
/// way, whether or not the policy allows floating tags. What follows the
/// start depends on the session and on what the registry and the cache
/// answer.
pub proof fn lemma_latest_policy_spares_other_tags(
    policy: FetchPolicy,
    allow_latest: bool,
    output_dir: Seq<char>,
    img: Seq<char>,
    accepted_media_types: Seq<Seq<char>>,
    cache: OciArtifactCacheUpdate,
)
    requires
        !is_latest(lowercase(img)),
    ensures
        (FetchPolicy { allow_latest, ..policy }).fetch_path(
            output_dir,
            img,
            accepted_media_types,
            cache,
        ) == policy.fetch_path(output_dir, img, accepted_media_types, cache),
{
}

/// A reference that ends in `:latest` is refused as a policy violation if
/// and only if the policy does not allow floating tags.
pub proof fn lemma_latest_tag_needs_permission(
    policy: FetchPolicy,
    output_dir: Seq<char>,
    img: Seq<char>,
    accepted_media_types: Seq<Seq<char>>,
    cache: OciArtifactCacheUpdate,
)
    requires
        is_latest(lowercase(img)),
    ensures
        policy.fetch_path(output_dir, img, accepted_media_types, cache) == Err::<
            SessionView,
            FetchError,
        >(FetchError::PolicyViolation) <==> !policy.allow_latest,
{
}

/// No fetch fails as a policy violation where the policy allows floating
/// tags.
pub proof fn lemma_permissive_policy_never_violated(
    policy: FetchPolicy,
    output_dir: Seq<char>,
    img: Seq<char>,
    accepted_media_types: Seq<Seq<char>>,
    cache: OciArtifactCacheUpdate,
)
    requires
        policy.allow_latest,
    ensures
        policy.fetch_path(output_dir, img, accepted_media_types, cache) != Err::<
            SessionView,
            FetchError,
        >(FetchError::PolicyViolation),
{
}

/// The cache entry of a fetch follows from the cache directory and the
/// reference alone: two fetches of one reference into one directory use the
/// same two files, whatever their policies, accepted media types and cache
/// settings.
pub proof fn lemma_cache_entry_follows_reference(
    policy: FetchPolicy,
    other: FetchPolicy,
    output_dir: Seq<char>,
    img: Seq<char>,
    accepted_media_types: Seq<Seq<char>>,
    other_media_types: Seq<Seq<char>>,
    cache: OciArtifactCacheUpdate,
    other_cache: OciArtifactCacheUpdate,
    session: SessionView,
    other_session: SessionView,
)
    requires
        policy.fetch_path(output_dir, img, accepted_media_types, cache) == Ok::<
            SessionView,
            FetchError,
        >(session),
        other.fetch_path(output_dir, img, other_media_types, other_cache) == Ok::<
            SessionView,
            FetchError,
        >(other_session),
    ensures
        session.request.entry == other_session.request.entry,
        session.request.entry == cache_entry(output_dir, lowercase(img)),
{
}

/// Insecure access reaches no further than the registry of the reference
/// that is fetched: every other host stays on TLS, and without insecure
/// access every host does.
pub proof fn lemma_fetch_keeps_other_hosts_on_tls(
    policy: FetchPolicy,
    output_dir: Seq<char>,
    img: Seq<char>,
    accepted_media_types: Seq<Seq<char>>,
    cache: OciArtifactCacheUpdate,
    session: SessionView,
    host: Seq<char>,
)
    requires
        policy.fetch_path(output_dir, img, accepted_media_types, cache) == Ok::<
            SessionView,
            FetchError,
        >(session),
    ensures
        host != session.request.reference.registry ==> uses_tls(session.request.protocol, host),
        !policy.allow_insecure ==> uses_tls(session.request.protocol, host),
{
    lemma_insecure_access_is_scoped(
        policy.allow_insecure,
        session.request.reference.registry,
        host,
    );
}

} // verus!
