use wasmcloud_oci::cache::{is_cache_hit, join_path, oci_cache_dir, prune_filepath, CacheEntry};

#[test]
fn prune_replaces_path_characters() {
    assert_eq!(
        prune_filepath("registry.example.com/acme/widget:v1"),
        "registry_example_com_acme_widget_v1"
    );
}

#[test]
fn prune_keeps_other_characters() {
    assert_eq!(prune_filepath("abc-DEF_123@sha256"), "abc-DEF_123@sha256");
    assert_eq!(prune_filepath(""), "");
    assert_eq!(prune_filepath("::..//"), "______");
    assert_eq!(prune_filepath("caf\u{e9}/\u{1f433}.x"), "caf\u{e9}_\u{1f433}_x");
}

#[test]
fn prune_collides_on_separators() {
    assert_ne!("ns/name:tag", "ns.name_tag");
    assert_eq!(prune_filepath("ns/name:tag"), "ns_name_tag");
    assert_eq!(prune_filepath("ns.name_tag"), "ns_name_tag");
    assert_eq!(
        CacheEntry::locate("/cache", "ns/name:tag"),
        CacheEntry::locate("/cache", "ns.name_tag")
    );
}

#[test]
fn prune_is_deterministic() {
    let first = CacheEntry::locate("/cache", "registry.example.com/acme/widget:v1");
    let second = CacheEntry::locate("/cache", "registry.example.com/acme/widget:v1");
    assert_eq!(first, second);
}

#[test]
fn join_puts_one_separator() {
    assert_eq!(join_path("/tmp", "name"), "/tmp/name");
    assert_eq!(join_path("/tmp/", "name"), "/tmp/name");
    assert_eq!(join_path("", "name"), "name");
    assert_eq!(join_path("/", "name"), "/name");
    assert_eq!(join_path("relative/dir", "name"), "relative/dir/name");
}

#[test]
fn cache_entry_layout() {
    let entry = CacheEntry::locate("/var/cache/oci", "registry.example.com/acme/widget:v1");
    assert_eq!(entry.cache_file, "/var/cache/oci/registry_example_com_acme_widget_v1");
    assert_eq!(
        entry.digest_file,
        "/var/cache/oci/registry_example_com_acme_widget_v1.digest"
    );
    assert_ne!(entry.cache_file, entry.digest_file);
}

#[test]
fn default_cache_dir_name() {
    assert_eq!(oci_cache_dir("/tmp"), "/tmp/wasmcloud_ocicache");
    assert_eq!(oci_cache_dir("/tmp/"), "/tmp/wasmcloud_ocicache");
}

#[test]
fn cache_hit_needs_equal_known_digests() {
    assert!(is_cache_hit("sha256:abc", "sha256:abc"));
    assert!(!is_cache_hit("sha256:abc", "sha256:abd"));
    assert!(!is_cache_hit("sha256:abc", ""));
    assert!(!is_cache_hit("", "sha256:abc"));
    assert!(!is_cache_hit("", ""));
    assert!(!is_cache_hit("sha256:abc", "sha256:abc\n"));
}
