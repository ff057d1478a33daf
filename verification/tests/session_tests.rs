use gba_core::session::dialogue_event;
use gba_core::{AgentMessage, AgentPreset, GbaEvent, SessionConfig, SessionOptions, TextCollector};

#[test]
fn test_session_options_from_preset() {
    let cfg = SessionConfig::new("m-1", 7);
    let o = SessionOptions::new(AgentPreset::ReadOnly, &cfg, "sys".to_string(), None);
    assert_eq!(o.model, "m-1");
    assert_eq!(o.max_turns, 7);
    assert_eq!(o.system_prompt, "sys");
    assert!(o.bypass_permissions);
    assert_eq!(o.cli_path, None);
    let expected: Vec<String> = AgentPreset::ReadOnly.allowed_tools().iter().map(|s| s.to_string()).collect();
    assert_eq!(o.allowed_tools, expected);
}

#[test]
fn test_session_options_cli_path() {
    let o = SessionOptions::new(AgentPreset::FullCoding, &SessionConfig::default(), String::new(), Some("/bin/agent".to_string()));
    assert_eq!(o.cli_path.as_deref(), Some("/bin/agent"));
    assert_eq!(o.max_turns, 10);
}

#[test]
fn test_text_collector_joins_lines() {
    let mut c = TextCollector::new();
    assert_eq!(c.text(), "");
    c.push("first");
    c.push("second");
    assert_eq!(c.text(), "first\nsecond");
}

#[test]
fn test_text_collector_accepts_reply() {
    let mut c = TextCollector::new();
    assert!(!c.accept(&AgentMessage::Text("a".to_string())));
    assert!(!c.accept(&AgentMessage::ToolUse { name: "Read".to_string() }));
    assert!(!c.accept(&AgentMessage::ToolResult { name: "Read".to_string(), output: "x".to_string() }));
    assert!(!c.accept(&AgentMessage::Text("b".to_string())));
    assert!(c.accept(&AgentMessage::Completed));
    assert_eq!(c.text(), "a\nb");
}

#[test]
fn test_dialogue_events() {
    assert_eq!(dialogue_event(AgentMessage::Text("t".to_string())), (Some(GbaEvent::AssistantMessage("t".to_string())), false));
    assert_eq!(dialogue_event(AgentMessage::Completed), (Some(GbaEvent::WaitingForInput), true));
    assert_eq!(dialogue_event(AgentMessage::ToolUse { name: "Bash".to_string() }), (None, false));
}
