use wasmcloud_oci::reference::ImageReference;
use wasmcloud_oci::transport::{client_protocol, ClientProtocol};

#[test]
fn tls_everywhere_by_default() {
    let reference = ImageReference::parse("registry.example.com/acme/widget:v1").unwrap();
    assert_eq!(client_protocol(false, &reference), ClientProtocol::Https);
}

#[test]
fn insecure_access_names_the_registry_alone() {
    let reference = ImageReference::parse("registry.example.com/acme/widget:v1").unwrap();
    assert_eq!(
        client_protocol(true, &reference),
        ClientProtocol::HttpsExcept(vec!["registry.example.com".to_string()])
    );
}

#[test]
fn insecure_access_keeps_the_port() {
    let reference = ImageReference::parse("localhost:5000/widget:v1").unwrap();
    assert_eq!(
        client_protocol(true, &reference),
        ClientProtocol::HttpsExcept(vec!["localhost:5000".to_string()])
    );
}

#[test]
fn insecure_access_for_one_host_leaves_another_alone() {
    let a = ImageReference::parse("a.example.com/widget:v1").unwrap();
    let b = ImageReference::parse("b.example.com/widget:v1").unwrap();
    match client_protocol(true, &a) {
        ClientProtocol::HttpsExcept(hosts) => {
            assert!(hosts.contains(&a.registry));
            assert!(!hosts.contains(&b.registry));
        }
        ClientProtocol::Https => panic!("insecure access was allowed"),
    }
}
