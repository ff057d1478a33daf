use gba_core::{GbaConfig, SessionConfig, SessionsConfig};

#[test]
fn test_session_config_default() {
    let config = SessionConfig::default();
    assert_eq!(config.model, "sonnet");
    assert_eq!(config.max_turns, 10);
}

#[test]
fn test_session_config_new() {
    let config = SessionConfig::new("opus", 15);
    assert_eq!(config.model, "opus");
    assert_eq!(config.max_turns, 15);
}

#[test]
fn test_sessions_config_default() {
    let config = SessionsConfig::default();
    assert_eq!(config.init.max_turns, 3);
    assert_eq!(config.plan.max_turns, 30);
    assert_eq!(config.run_phase.max_turns, 20);
    assert_eq!(config.run_review.max_turns, 5);
    assert_eq!(config.run_verify.max_turns, 10);
}

#[test]
fn test_gba_config_new() {
    let config = GbaConfig::new("/path/to/repo");
    assert_eq!(config.working_dir, "/path/to/repo");
    assert_eq!(config.sessions.init.max_turns, 3);
}

#[test]
fn config_test_gba_config_paths() {
    let config = GbaConfig::new("/path/to/repo");
    assert_eq!(config.gba_dir(), "/path/to/repo/.gba");
    assert_eq!(config.config_file(), "/path/to/repo/.gba/config.yaml");
    assert_eq!(config.specs_dir(), "/path/to/repo/.gba/specs");
    assert_eq!(config.trees_dir(), "/path/to/repo/.gba/trees");
    assert_eq!(
        config.feature_spec_dir("0001", "add-auth"),
        "/path/to/repo/.gba/specs/0001_add-auth"
    );
}

#[test]
fn config_with_sessions_keeps_sessions() {
    let mut sessions = SessionsConfig::default();
    sessions.plan.max_turns = 42;
    let config = GbaConfig::with_sessions("/w", sessions.clone());
    assert_eq!(config.working_dir, "/w");
    assert_eq!(config.sessions, sessions);
}

#[test]
fn config_paths_with_trailing_slash_and_empty_root() {
    let config = GbaConfig::new("/repo/");
    assert_eq!(config.gba_dir(), "/repo/.gba");
    let config = GbaConfig::new("");
    assert_eq!(config.gba_dir(), ".gba");
    assert_eq!(config.specs_dir(), ".gba/specs");
}

#[test]
fn config_feature_dir_with_absolute_name_replaces_base() {
    let config = GbaConfig::new("/repo");
    assert_eq!(config.feature_spec_dir("/abs", "x"), "/abs_x");
}
