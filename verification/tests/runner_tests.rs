use gba_core::runner::commit_message;
use gba_core::{parse_phases, GbaEvent, Phase, PromptContext, Runner};

#[test]
fn test_parse_phases_empty() {
    let phases = parse_phases("");
    assert_eq!(phases.len(), 1);
    assert_eq!(phases[0].name, "Implementation");
}

#[test]
fn test_parse_phases_single() {
    let spec = r#"## Phase 1: Core Implementation

This is the core implementation phase.
It involves setting up the basic structure.
"#;
    let phases = parse_phases(spec);
    assert_eq!(phases.len(), 1);
    assert_eq!(phases[0].name, "Core Implementation");
    assert!(phases[0].description.contains("core implementation phase"));
}

#[test]
fn test_parse_phases_multiple() {
    let spec = r#"## Phase 1: Setup

Set up the project structure.

## Phase 2: Core Logic

Implement the main logic.

## Phase 3: Tests

Add test coverage.
"#;
    let phases = parse_phases(spec);
    assert_eq!(phases.len(), 3);
    assert_eq!(phases[0].name, "Setup");
    assert_eq!(phases[1].name, "Core Logic");
    assert_eq!(phases[2].name, "Tests");
}

#[test]
fn test_parse_phases_with_dash() {
    let spec = r#"## Phase 1 - Authentication

Add auth module.
"#;
    let phases = parse_phases(spec);
    assert_eq!(phases.len(), 1);
    assert_eq!(phases[0].name, "Authentication");
}

#[test]
fn test_phase_debug() {
    let phase = Phase {
        name: "Test".to_string(),
        description: "Test description".to_string(),
    };
    let debug_str = format!("{:?}", phase);
    assert!(debug_str.contains("Test"));
}

#[test]
fn parse_phases_descriptions_exact() {
    let spec = "intro line\n## Phase 1: A\r\n  first\n\nsecond  \n## PHASE 2 no separator\nx\n## phase 3: \nignored\n  ## Phase 4: D-1  \n";
    let phases = parse_phases(spec);
    assert_eq!(phases.len(), 3);
    assert_eq!(phases[0].name, "A");
    assert_eq!(phases[0].description, "first\n\nsecond");
    assert_eq!(phases[1].name, "PHASE 2 no separator");
    assert_eq!(phases[1].description, "x");
    assert_eq!(phases[2].name, "D-1");
    assert_eq!(phases[2].description, "");
}

#[test]
fn parse_phases_without_headers_gives_default() {
    let phases = parse_phases("# Design\n\nJust text.\n## Notes\n");
    assert_eq!(
        phases,
        vec![Phase {
            name: "Implementation".to_string(),
            description: "Implement the feature according to the design specification."
                .to_string(),
        }]
    );
}

#[test]
fn runner_events_and_messages() {
    let runner = Runner::from_specs(
        "0007",
        "## Phase 1: Setup\nsetup things\n## Phase 2: Build\nbuild it".to_string(),
        "plan".to_string(),
    );
    assert_eq!(runner.total_phases(), 2);
    assert_eq!(runner.phases()[1].name, "Build");
    assert_eq!(
        runner.phase_started(1),
        GbaEvent::PhaseStarted {
            name: "Build".to_string(),
            index: 2,
            total: 2
        }
    );
    assert_eq!(
        runner.phase_committed(0),
        GbaEvent::PhaseCommitted {
            name: "Setup".to_string()
        }
    );
    assert_eq!(
        runner.phase_commit_message(0),
        "feat(0007): Setup - Phase 1/2"
    );
    let base = runner.system_context("/repo", "tree");
    assert_eq!(base.feature_slug, "0007");
    assert_eq!(base.verification_plan, "plan");
    let ctx = runner.phase_context(base, 1);
    assert_eq!(ctx.phase_name, "Build");
    assert_eq!(ctx.phase_description, "build it");
    assert_eq!(ctx.phase_index, 2);
    assert_eq!(ctx.phase_total, 2);
    assert_eq!(ctx.working_dir, "/repo");
    let _ = PromptContext::new();
}

#[test]
fn runner_commit_message_format() {
    assert_eq!(
        commit_message("0001", "Core Logic", 2, 3),
        "feat(0001): Core Logic - Phase 2/3"
    );
}
