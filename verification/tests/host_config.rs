use wasmcloud_oci::host_config::PolicyService;

#[test]
fn policy_service_defaults_to_nothing() {
    let service = PolicyService::default();
    assert_eq!(service.policy_topic, None);
    assert_eq!(service.policy_changes_topic, None);
    assert_eq!(service.policy_timeout_ms, None);
}
