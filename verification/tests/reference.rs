use wasmcloud_oci::error::FetchError;
use wasmcloud_oci::reference::{check_policy, normalize, ImageReference};

#[test]
fn normalize_lowercases_everything() {
    assert_eq!(
        normalize("Registry.Example.COM/Acme/Widget:V1"),
        "registry.example.com/acme/widget:v1"
    );
    assert_eq!(normalize("already/lower:v1"), "already/lower:v1");
    assert_eq!(normalize(""), "");
    assert_eq!(normalize("GHCR.IO/\u{c4}"), "ghcr.io/\u{e4}");
}

#[test]
fn latest_is_refused_by_default() {
    assert_eq!(
        check_policy("registry.example.com/acme/widget:latest", false),
        Err(FetchError::PolicyViolation)
    );
    assert_eq!(check_policy(":latest", false), Err(FetchError::PolicyViolation));
}

#[test]
fn latest_is_allowed_on_request() {
    assert_eq!(check_policy("registry.example.com/acme/widget:latest", true), Ok(()));
}

#[test]
fn other_tags_pass_either_way() {
    for allow_latest in [false, true] {
        assert_eq!(check_policy("registry.example.com/acme/widget:v1", allow_latest), Ok(()));
        assert_eq!(check_policy("registry.example.com/acme/latest", allow_latest), Ok(()));
        assert_eq!(check_policy("registry.example.com/acme/widget:latest1", allow_latest), Ok(()));
        assert_eq!(check_policy("latest", allow_latest), Ok(()));
        assert_eq!(check_policy("", allow_latest), Ok(()));
    }
}

#[test]
fn untagged_reference_is_not_a_latest_reference() {
    // The policy looks at the text of the reference, not at the tag that a
    // registry would assume.
    assert_eq!(check_policy("registry.example.com/acme/widget", false), Ok(()));
}

#[test]
fn parse_tagged_reference() {
    let reference = ImageReference::parse("registry.example.com/acme/widget:v1").unwrap();
    assert_eq!(reference.registry, "registry.example.com");
    assert_eq!(reference.repository, "acme/widget");
    assert_eq!(reference.tag.as_deref(), Some("v1"));
    assert_eq!(reference.digest, None);
}

#[test]
fn parse_reference_with_port_and_digest() {
    let digest = "sha256:ffffffffffffffffffffffffffffffffffffffffffffffffffffffffffffffff";
    let reference = ImageReference::parse(&format!("localhost:5000/repo@{}", digest)).unwrap();
    assert_eq!(reference.registry, "localhost:5000");
    assert_eq!(reference.repository, "repo");
    assert_eq!(reference.tag, None);
    assert_eq!(reference.digest.as_deref(), Some(digest));
}

#[test]
fn parse_untagged_reference_assumes_latest() {
    let reference = ImageReference::parse("registry.example.com/acme/widget").unwrap();
    assert_eq!(reference.tag.as_deref(), Some("latest"));
}

#[test]
fn parse_agrees_with_the_registry_client() {
    let text = "registry.example.com:8443/acme/widget:v1";
    let theirs: oci_distribution::Reference = text.parse().unwrap();
    let ours = ImageReference::parse(text).unwrap();
    assert_eq!(ours.registry, theirs.registry());
    assert_eq!(ours.repository, theirs.repository());
    assert_eq!(ours.tag.as_deref(), theirs.tag());
    assert_eq!(ours.digest.as_deref(), theirs.digest());
}

#[test]
fn parse_rejects_what_is_no_reference() {
    assert_eq!(ImageReference::parse(""), Err(FetchError::InvalidReference));
    assert_eq!(ImageReference::parse("not a reference"), Err(FetchError::InvalidReference));
    assert_eq!(
        ImageReference::parse("registry.example.com/Acme/widget:v1"),
        Err(FetchError::InvalidReference)
    );
    assert_eq!(
        ImageReference::parse("registry.example.com/acme/widget@sha256:abc"),
        Err(FetchError::InvalidReference)
    );
}
