use gba_core::GbaEvent;

#[test]
fn test_phase_started_description() {
    let event = GbaEvent::PhaseStarted {
        name: String::from("Implementation"),
        index: 1,
        total: 3,
    };
    assert_eq!(event.description(), "Starting phase 1/3: Implementation");
}

#[test]
fn test_phase_committed_description() {
    let event = GbaEvent::PhaseCommitted {
        name: String::from("Core Logic"),
    };
    assert_eq!(
        event.description(),
        "Phase completed and committed: Core Logic"
    );
}

#[test]
fn test_issues_found_description() {
    let event = GbaEvent::IssuesFound(vec![
        String::from("Missing error handling"),
        String::from("Unused import"),
    ]);
    assert_eq!(
        event.description(),
        "Found 2 issue(s): Missing error handling, Unused import"
    );
}

#[test]
fn test_verification_result_passed() {
    let event = GbaEvent::VerificationResult {
        passed: true,
        details: String::from("All tests passed"),
    };
    assert_eq!(event.description(), "Verification passed: All tests passed");
    assert!(!event.is_error());
}

#[test]
fn test_verification_result_failed() {
    let event = GbaEvent::VerificationResult {
        passed: false,
        details: String::from("2 tests failed"),
    };
    assert_eq!(event.description(), "Verification failed: 2 tests failed");
    assert!(!event.is_error());
}

#[test]
fn test_pr_created_description() {
    let event = GbaEvent::PrCreated {
        url: String::from("https://github.com/user/repo/pull/42"),
    };
    assert_eq!(
        event.description(),
        "Pull request created: https://github.com/user/repo/pull/42"
    );
}

#[test]
fn test_error_description() {
    let event = GbaEvent::Error(String::from("Something went wrong"));
    assert_eq!(event.description(), "Error: Something went wrong");
    assert!(event.is_error());
}

#[test]
fn test_is_error() {
    assert!(GbaEvent::Error(String::new()).is_error());
    assert!(!GbaEvent::WaitingForInput.is_error());
    assert!(!GbaEvent::ReviewStarted.is_error());
}

#[test]
fn test_requires_attention() {
    assert!(GbaEvent::WaitingForInput.requires_attention());
    assert!(GbaEvent::Error(String::new()).requires_attention());
    assert!(GbaEvent::IssuesFound(vec![]).requires_attention());
    assert!(
        GbaEvent::VerificationResult {
            passed: true,
            details: String::new()
        }
        .requires_attention()
    );
    assert!(!GbaEvent::ReviewStarted.requires_attention());
    assert!(!GbaEvent::FixingIssues.requires_attention());
}

#[test]
fn event_other_descriptions() {
    assert_eq!(
        GbaEvent::AssistantMessage("hi there".to_string()).description(),
        "hi there"
    );
    assert_eq!(
        GbaEvent::WaitingForInput.description(),
        "Waiting for user input..."
    );
    assert_eq!(GbaEvent::ReviewStarted.description(), "Starting code review...");
    assert_eq!(GbaEvent::FixingIssues.description(), "Fixing review issues...");
    assert_eq!(
        GbaEvent::IssuesFound(vec![]).description(),
        "Found 0 issue(s): "
    );
    let event = GbaEvent::PhaseStarted {
        name: "X".to_string(),
        index: 12,
        total: 305,
    };
    assert_eq!(event.description(), "Starting phase 12/305: X");
}

#[test]
fn event_errors_require_attention() {
    let events = vec![
        GbaEvent::AssistantMessage("a".to_string()),
        GbaEvent::PhaseCommitted { name: "p".to_string() },
        GbaEvent::PrCreated { url: "u".to_string() },
        GbaEvent::Error("e".to_string()),
    ];
    for e in events {
        if e.is_error() {
            assert!(e.requires_attention());
        }
    }
}
