use gba_core::AgentPreset;

#[test]
fn test_read_only_tools() {
    let tools = AgentPreset::ReadOnly.allowed_tools();
    assert_eq!(tools, vec!["Read", "Glob", "Grep"]);
}

#[test]
fn test_write_spec_tools() {
    let tools = AgentPreset::WriteSpec.allowed_tools();
    assert!(tools.contains(&"Read"));
    assert!(tools.contains(&"Glob"));
    assert!(tools.contains(&"Grep"));
    assert!(tools.contains(&"Write"));
    assert!(!tools.contains(&"Edit"));
    assert!(!tools.contains(&"Bash"));
}

#[test]
fn test_full_coding_tools() {
    let tools = AgentPreset::FullCoding.allowed_tools();
    assert_eq!(tools.len(), 6);
    assert!(tools.contains(&"Read"));
    assert!(tools.contains(&"Write"));
    assert!(tools.contains(&"Edit"));
    assert!(tools.contains(&"Bash"));
    assert!(tools.contains(&"Glob"));
    assert!(tools.contains(&"Grep"));
}

#[test]
fn test_verify_tools() {
    let tools = AgentPreset::Verify.allowed_tools();
    assert!(tools.contains(&"Read"));
    assert!(tools.contains(&"Glob"));
    assert!(tools.contains(&"Grep"));
    assert!(tools.contains(&"Bash"));
    assert!(!tools.contains(&"Write"));
    assert!(!tools.contains(&"Edit"));
}

#[test]
fn test_can_write() {
    assert!(!AgentPreset::ReadOnly.can_write());
    assert!(AgentPreset::WriteSpec.can_write());
    assert!(AgentPreset::FullCoding.can_write());
    assert!(!AgentPreset::Verify.can_write());
}

#[test]
fn test_can_edit() {
    assert!(!AgentPreset::ReadOnly.can_edit());
    assert!(!AgentPreset::WriteSpec.can_edit());
    assert!(AgentPreset::FullCoding.can_edit());
    assert!(!AgentPreset::Verify.can_edit());
}

#[test]
fn test_can_execute() {
    assert!(!AgentPreset::ReadOnly.can_execute());
    assert!(!AgentPreset::WriteSpec.can_execute());
    assert!(AgentPreset::FullCoding.can_execute());
    assert!(AgentPreset::Verify.can_execute());
}

#[test]
fn test_display() {
    assert_eq!(AgentPreset::ReadOnly.name(), "ReadOnly");
    assert_eq!(AgentPreset::WriteSpec.name(), "WriteSpec");
    assert_eq!(AgentPreset::FullCoding.name(), "FullCoding");
    assert_eq!(AgentPreset::Verify.name(), "Verify");
}

#[test]
fn test_description() {
    assert!(!AgentPreset::ReadOnly.description().is_empty());
    assert!(!AgentPreset::WriteSpec.description().is_empty());
    assert!(!AgentPreset::FullCoding.description().is_empty());
    assert!(!AgentPreset::Verify.description().is_empty());
}

#[test]
fn preset_capabilities_match_tools() {
    for p in [
        AgentPreset::ReadOnly,
        AgentPreset::WriteSpec,
        AgentPreset::FullCoding,
        AgentPreset::Verify,
    ] {
        let tools = p.allowed_tools();
        assert_eq!(p.can_write(), tools.contains(&"Write"));
        assert_eq!(p.can_edit(), tools.contains(&"Edit"));
        assert_eq!(p.can_execute(), tools.contains(&"Bash"));
        for t in ["Read", "Glob", "Grep"] {
            assert!(tools.contains(&t));
        }
    }
}

#[test]
fn preset_descriptions_exact() {
    assert_eq!(
        AgentPreset::ReadOnly.description(),
        "Read-only access for analysis and review"
    );
    assert_eq!(
        AgentPreset::Verify.description(),
        "Read and command execution for verification"
    );
}
