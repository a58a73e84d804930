//! Normalizing and parsing registry references.

use vstd::prelude::*;
use crate::error::FetchError;
use crate::text::{ends_with, lowercase, opt_text, to_lowercase};

verus! {

/// The error of the registry client's reference parser,
/// `oci_distribution::ParseError`. Nothing is read from it.
#[verifier::external_type_specification]
#[verifier::external_body]
pub struct ExParseError(oci_distribution::ParseError);

/// A registry reference, taken apart.
#[derive(Debug, Clone, PartialEq, Eq)]
pub struct ImageReference {
    /// The registry host, with its port if it names one.
    pub registry: String,
    /// The repository within the registry.
    pub repository: String,
    /// The tag, if the reference has one or none was needed.
    pub tag: Option<String>,
    /// The digest, if the reference has one.
    pub digest: Option<String>,
}

/// What an [`ImageReference`] holds, as character sequences.
pub struct ImageReferenceView {
    pub registry: Seq<char>,
    pub repository: Seq<char>,
    pub tag: Option<Seq<char>>,
    pub digest: Option<Seq<char>>,
}

impl View for ImageReference {
    type V = ImageReferenceView;

    open spec fn view(&self) -> ImageReferenceView {
        ImageReferenceView {
            registry: self.registry@,
            repository: self.repository@,
            tag: opt_text(self.tag),
            digest: opt_text(self.digest),
        }
    }
}

/// The parts of the reference that `s` spells, or `None` where `s` is not a
/// reference: what `oci_distribution::Reference` makes of `s`.
pub uninterp spec fn parsed_reference(s: Seq<char>) -> Option<ImageReferenceView>;

/// Parses a reference with the registry client's own parser.
///
/// Trusted: names what `str::parse::<oci_distribution::Reference>` returns,
/// read through the accessors `registry`, `repository`, `tag` and `digest`.
/// The parser matches `s` against a fixed grammar and reads nothing else.
#[verifier::external_body]
pub(crate) fn parse_reference(s: &str) -> (parsed: Result<
    ImageReference,
    oci_distribution::ParseError,
>)
    ensures
        match parsed {
            Ok(reference) => parsed_reference(s@) == Some(reference@),
            Err(_) => parsed_reference(s@) is None,
        },
{
    let reference = s.parse::<oci_distribution::Reference>()?;
    Ok(ImageReference {
        registry: reference.registry().to_string(),
        repository: reference.repository().to_string(),
        tag: reference.tag().map(|t| t.to_string()),
        digest: reference.digest().map(|d| d.to_string()),
    })
}

/// Whether a normalized reference names the floating tag `latest`.
pub open spec fn is_latest(normalized: Seq<char>) -> bool {
    ":latest"@.is_suffix_of(normalized)
}

/// Whether the policy lets a normalized reference through.
pub open spec fn policy_allows(allow_latest: bool, normalized: Seq<char>) -> bool {
    allow_latest || !is_latest(normalized)
}

/// Brings a reference into the form that registries accept: all lowercase.
pub fn normalize(img: &str) -> (normalized: String)
    ensures
        normalized@ == lowercase(img@),
{
    to_lowercase(img)
}

/// Rejects a normalized reference that ends in `:latest`, unless the policy
/// allows floating tags.
pub fn check_policy(normalized: &str, allow_latest: bool) -> (checked: Result<(), FetchError>)
    ensures
        checked == if policy_allows(allow_latest, normalized@) {
            Ok::<(), FetchError>(())
        } else {
            Err::<(), FetchError>(FetchError::PolicyViolation)
        },
{
    if !allow_latest && ends_with(normalized, ":latest") {
        Err(FetchError::PolicyViolation)
    } else {
        Ok(())
    }
}

impl ImageReference {
    /// Parses a normalized reference into registry, repository, tag and
    /// digest.
    pub fn parse(normalized: &str) -> (parsed: Result<ImageReference, FetchError>)
        ensures
            match parsed {
                Ok(reference) => parsed_reference(normalized@) == Some(reference@),
                Err(e) => parsed_reference(normalized@) is None && e
                    == FetchError::InvalidReference,
            },
    {
        match parse_reference(normalized) {
            Ok(reference) => Ok(reference),
            Err(_) => Err(FetchError::InvalidReference),
        }
    }
}

} // verus!
