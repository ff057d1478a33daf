use gba_core::{display_assistant_message, display_event, GbaEvent};

#[test]
fn test_short_message_is_indented() {
    assert_eq!(display_assistant_message("hello", false), "  hello");
}

#[test]
fn test_long_message_is_shortened_unless_verbose() {
    let msg = "a".repeat(150);
    let shown = display_assistant_message(&msg, false);
    assert_eq!(shown, format!("  {}...", "a".repeat(97)));
    assert_eq!(display_assistant_message(&msg, true), format!("  {}", msg));
    let exactly = "b".repeat(100);
    assert_eq!(display_assistant_message(&exactly, false), format!("  {}", exactly));
}

#[test]
fn test_display_phase_started() {
    let e = GbaEvent::PhaseStarted { name: "Core".to_string(), index: 1, total: 3 };
    assert_eq!(display_event(&e, false), vec!["\n\x1b[36m--- Phase 1/3: Core ---\x1b[0m".to_string()]);
}

#[test]
fn test_display_issues_found() {
    let e = GbaEvent::IssuesFound(vec!["a.rs: x".to_string(), "b.rs: y".to_string()]);
    assert_eq!(
        display_event(&e, false),
        vec![
            "  \x1b[33m[!] Found 2 issue(s):\x1b[0m".to_string(),
            "    - a.rs: x".to_string(),
            "    - b.rs: y".to_string(),
        ]
    );
}

#[test]
fn test_display_verification_and_pr() {
    let e = GbaEvent::VerificationResult { passed: false, details: "2 failures".to_string() };
    assert_eq!(
        display_event(&e, true),
        vec!["\n\x1b[34m--- Verification ---\x1b[0m".to_string(), "  \x1b[31m[X] Failed: 2 failures\x1b[0m".to_string()]
    );
    let e = GbaEvent::PrCreated { url: "https://x/pull/1".to_string() };
    assert_eq!(display_event(&e, false)[1], "  \x1b[32m[OK] Created: https://x/pull/1\x1b[0m");
    let e = GbaEvent::AssistantMessage("hi".to_string());
    assert_eq!(display_event(&e, false), vec!["  hi".to_string()]);
}

#[test]
fn test_verbose_message_is_never_cut() {
    // 60 two-byte characters: byte 97 falls inside a character, which only matters
    // when the message is shortened.
    let msg = "é".repeat(60);
    assert_eq!(display_assistant_message(&msg, true), format!("  {}", msg));
    let e = GbaEvent::AssistantMessage(msg.clone());
    assert_eq!(display_event(&e, true), vec![format!("  {}", msg)]);
}
