use gba_core::{
    AgentPreset, GbaConfig, GbaEvent, GbaMdEntry, PromptContext, PromptId, PromptRole,
    SessionConfig, SessionsConfig, Workspace,
};

#[test]
fn lib_test_public_api_exports() {
    let _config = GbaConfig::new("/test");
    let _session_config = SessionConfig::default();
    let _sessions_config = SessionsConfig::default();
    let _preset = AgentPreset::ReadOnly;
    let _event = GbaEvent::WaitingForInput;
    let _workspace = Workspace::new("/test");

    let _ctx = PromptContext::default();
    let _entry = GbaMdEntry::default();
    let _role = PromptRole::System;
    let _id = PromptId::InitSystem;
}

#[test]
fn test_agent_preset_allowed_tools() {
    assert_eq!(
        AgentPreset::ReadOnly.allowed_tools(),
        vec!["Read", "Glob", "Grep"]
    );
    assert_eq!(
        AgentPreset::WriteSpec.allowed_tools(),
        vec!["Read", "Glob", "Grep", "Write"]
    );
    assert_eq!(
        AgentPreset::FullCoding.allowed_tools(),
        vec!["Read", "Write", "Edit", "Bash", "Glob", "Grep"]
    );
    assert_eq!(
        AgentPreset::Verify.allowed_tools(),
        vec!["Read", "Glob", "Grep", "Bash"]
    );
}

#[test]
fn test_session_config_default_values() {
    let config = SessionConfig::default();
    assert_eq!(config.model, "sonnet");
    assert_eq!(config.max_turns, 10);
}

#[test]
fn test_sessions_config_default_values() {
    let config = SessionsConfig::default();
    assert_eq!(config.init.max_turns, 3);
    assert_eq!(config.plan.max_turns, 30);
    assert_eq!(config.run_phase.max_turns, 20);
    assert_eq!(config.run_review.max_turns, 5);
    assert_eq!(config.run_verify.max_turns, 10);
}

#[test]
fn lib_test_gba_config_paths() {
    let config = GbaConfig::new("/repo");
    assert_eq!(config.gba_dir(), "/repo/.gba");
    assert_eq!(config.specs_dir(), "/repo/.gba/specs");
}

#[test]
fn test_gba_event_description() {
    let event = GbaEvent::PhaseStarted {
        name: String::from("Test"),
        index: 1,
        total: 3,
    };
    assert_eq!(event.description(), "Starting phase 1/3: Test");

    let event = GbaEvent::VerificationResult {
        passed: true,
        details: String::from("All tests passed"),
    };
    assert_eq!(event.description(), "Verification passed: All tests passed");
}

#[test]
fn lib_test_workspace_paths() {
    let ws = Workspace::new("/repo");
    assert_eq!(ws.root(), "/repo");
    assert_eq!(ws.gba_dir(), "/repo/.gba");
}
