use gba_core::{AgentPreset, GbaCoreError, PlanSession, PlanState, Workspace};

#[test]
fn test_plan_state_debug() {
    let state = PlanState::Dialogue;
    let debug_str = format!("{:?}", state);
    assert!(debug_str.contains("Dialogue"));
}

#[test]
fn test_plan_session_lifecycle() {
    let mut s = PlanSession::new("add-login");
    assert_eq!(s.state(), PlanState::Dialogue);
    assert_eq!(s.feature_slug(), "add-login");
    assert_eq!(s.feature_id(), None);
    assert!(!s.is_finalized());
    assert!(s.check_send().is_ok());

    assert!(s.begin_finalize().is_ok());
    assert_eq!(s.state(), PlanState::Finalizing);
    s.assign_feature_id("0003".to_string());
    s.complete();
    assert!(s.is_finalized());
    assert_eq!(s.feature_id(), Some("0003"));
}

#[test]
fn test_plan_session_refuses_after_finalization() {
    let mut s = PlanSession::new("x");
    s.begin_finalize().unwrap();
    s.complete();
    match s.check_send() {
        Err(GbaCoreError::PlanError(m)) => assert_eq!(m, "Cannot send messages after finalization"),
        other => panic!("unexpected {:?}", other),
    }
    match s.begin_finalize() {
        Err(GbaCoreError::PlanError(m)) => assert_eq!(m, "Session already finalized"),
        other => panic!("unexpected {:?}", other),
    }
    assert_eq!(s.state(), PlanState::Completed);
}

#[test]
fn test_plan_session_no_send_while_finalizing() {
    let mut s = PlanSession::new("x");
    s.begin_finalize().unwrap();
    assert!(s.check_send().is_err());
    // A failed finalisation may be retried.
    assert!(s.begin_finalize().is_ok());
}

#[test]
fn test_check_finalize() {
    let mut s = PlanSession::new("x");
    assert!(s.check_finalize().is_ok());
    assert_eq!(s.state(), PlanState::Dialogue);
    s.begin_finalize().unwrap();
    s.complete();
    match s.check_finalize() {
        Err(GbaCoreError::PlanError(m)) => assert_eq!(m, "Session already finalized"),
        other => panic!("unexpected {:?}", other),
    }
}

#[test]
fn test_plan_presets_and_numbering() {
    let mut s = PlanSession::new("auth");
    assert_eq!(s.preset(), Some(AgentPreset::ReadOnly));
    s.begin_finalize().unwrap();
    assert_eq!(s.preset(), Some(AgentPreset::WriteSpec));
    let names = vec!["0001_".to_string(), "0007_".to_string(), "notes".to_string()];
    assert_eq!(s.assign_next_feature_id(&names), "0008");
    assert_eq!(s.feature_id(), Some("0008"));
    s.complete();
    assert_eq!(s.preset(), None);
    let ws = Workspace::new("/repo");
    assert_eq!(ws.slug_path("0008"), "/repo/.gba/specs/0008_/.slug");
    assert_eq!(ws.init_dirs(), vec!["/repo/.gba", "/repo/.gba/specs", "/repo/.gba/trees"]);
}
