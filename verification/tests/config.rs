use arch_client::config::RuntimeConfig;

#[test]
fn config_keeps_its_fields() {
    let c = RuntimeConfig::new("session.bin".to_string(), 12345, "abcdef".to_string());
    assert_eq!(c.session_file, "session.bin");
    assert_eq!(c.api_id, 12345);
    assert_eq!(c.api_hash, "abcdef");
}
