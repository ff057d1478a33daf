use gba_core::GbaCoreError;

#[test]
fn test_error_messages() {
    assert_eq!(GbaCoreError::ConfigError("bad".to_string()).message(), "Configuration error: bad");
    assert_eq!(GbaCoreError::PlanError("p".to_string()).message(), "Planning error: p");
    assert_eq!(GbaCoreError::RunError("r".to_string()).message(), "Run error: r");
    assert_eq!(GbaCoreError::YamlError("y".to_string()).message(), "YAML serialization error: y");
}
