use gba_core::tui::{LineKind, ScreenLine, SPINNER_FRAMES};
use gba_core::{App, AppState, KeyAction, KeyInput, Sender};

#[test]
fn test_app_new() {
    let app = App::new("feat".to_string(), false);
    assert_eq!(app.state, AppState::Dialogue);
    assert_eq!(app.input_text(), "");
    assert!(app.messages.is_empty());
    assert_eq!(app.spinner(), SPINNER_FRAMES[0]);
    assert!(!app.should_quit());
}

#[test]
fn test_input_editing() {
    let mut app = App::new("f".to_string(), false);
    app.handle_char('h');
    app.handle_char('é');
    assert_eq!(app.input_text(), "hé");
    app.handle_backspace();
    assert_eq!(app.input_text(), "h");
    app.handle_backspace();
    app.handle_backspace();
    assert_eq!(app.input_text(), "");
    app.handle_char('x');
    app.clear_input();
    assert_eq!(app.input_text(), "");
}

#[test]
fn test_messages_and_scrolling() {
    let mut app = App::new("f".to_string(), false);
    app.add_user_message("one\ntwo".to_string());
    app.add_assistant_message(String::new());
    assert_eq!(app.messages[0].sender, Sender::User);
    assert_eq!(app.messages[1].sender, Sender::Assistant);
    assert_eq!(app.total_lines(), 5 + 3);
    assert_eq!(app.checked_total_lines(), Some(8));
    assert_eq!(app.scroll_offset, usize::MAX / 2);

    app.scroll_offset = 0;
    app.scroll_down(5);
    assert_eq!(app.scroll_offset, 1);
    app.page_down(10, 5);
    assert_eq!(app.scroll_offset, 3);
    app.scroll_up();
    assert_eq!(app.scroll_offset, 2);
    app.page_up(10);
    assert_eq!(app.scroll_offset, 0);
    app.scroll_up();
    assert_eq!(app.scroll_offset, 0);
    app.scroll_down(100);
    assert_eq!(app.scroll_offset, 0);
}

#[test]
fn test_spinner_wraps() {
    let mut app = App::new("f".to_string(), false);
    assert_eq!(app.tick_spinner(), "\u{2819}");
    for _ in 0..9 {
        app.tick_spinner();
    }
    assert_eq!(app.spinner(), SPINNER_FRAMES[0]);
}

#[test]
fn test_completion_and_error() {
    let mut app = App::new("f".to_string(), false);
    app.set_error("boom".to_string());
    assert_eq!(app.state, AppState::Error);
    assert_eq!(app.error_message.as_deref(), Some("boom"));
    assert!(!app.should_quit());
    app.set_completed("0001".to_string());
    assert_eq!(app.state, AppState::Completed);
    assert!(app.should_quit());
}

fn typed(app: &mut App, s: &str) {
    for c in s.chars() {
        assert_eq!(app.handle_key(KeyInput::Char { c, ctrl: false }), KeyAction::Continue);
    }
}

#[test]
fn test_handle_key_send() {
    let mut app = App::new("f".to_string(), false);
    typed(&mut app, "hi");
    assert_eq!(app.handle_key(KeyInput::Backspace), KeyAction::Continue);
    typed(&mut app, "ey");
    assert_eq!(app.handle_key(KeyInput::Enter), KeyAction::Send("hey".to_string()));
    assert_eq!(app.state, AppState::WaitingForResponse);
    assert_eq!(app.input_text(), "");
    assert_eq!(app.messages.len(), 1);
    assert_eq!(app.messages[0].content, "hey");
    // Keys are ignored while waiting.
    assert_eq!(app.handle_key(KeyInput::Char { c: 'x', ctrl: false }), KeyAction::Continue);
    assert_eq!(app.input_text(), "");
    app.reply_received("hello".to_string());
    assert_eq!(app.state, AppState::Dialogue);
    assert_eq!(app.messages[1].sender, Sender::Assistant);
    app.reply_received(String::new());
    assert_eq!(app.messages.len(), 2);
}

#[test]
fn test_handle_key_empty_enter_and_quit() {
    let mut app = App::new("f".to_string(), false);
    assert_eq!(app.handle_key(KeyInput::Enter), KeyAction::Continue);
    assert!(app.messages.is_empty());
    assert_eq!(app.handle_key(KeyInput::Char { c: 'c', ctrl: true }), KeyAction::Quit(None));
    assert_eq!(app.handle_key(KeyInput::Char { c: 'd', ctrl: true }), KeyAction::Quit(None));
    assert_eq!(app.handle_key(KeyInput::Esc), KeyAction::Quit(None));
    assert_eq!(app.handle_key(KeyInput::Other), KeyAction::Continue);
}

#[test]
fn test_handle_key_finalize() {
    let mut app = App::new("f".to_string(), false);
    typed(&mut app, "/done");
    assert_eq!(app.handle_key(KeyInput::Enter), KeyAction::Finalize);
    assert_eq!(app.state, AppState::Finalizing);
    assert_eq!(app.input_text(), "");

    let mut app = App::new("f".to_string(), false);
    assert_eq!(app.handle_key(KeyInput::Char { c: 'f', ctrl: true }), KeyAction::Finalize);
    assert_eq!(app.state, AppState::Finalizing);

    app.finalized(Some("0002".to_string()));
    assert_eq!(app.state, AppState::Completed);
    assert_eq!(app.overlay_text().as_deref(), Some("Feature ID: 0002\n\nPress Enter to exit."));
    assert_eq!(app.handle_key(KeyInput::Char { c: 'x', ctrl: false }), KeyAction::Continue);
    assert_eq!(app.handle_key(KeyInput::Enter), KeyAction::Quit(Some("0002".to_string())));
}

#[test]
fn test_finalized_without_id() {
    let mut app = App::new("f".to_string(), false);
    app.finalized(None);
    assert_eq!(app.state, AppState::Error);
    assert_eq!(
        app.overlay_text().as_deref(),
        Some("Error: Failed to get feature ID after finalization\n\nPress Enter to exit.")
    );
    assert_eq!(app.handle_key(KeyInput::Esc), KeyAction::Quit(None));
    assert_eq!(app.status_text(), "Error occurred. Press Enter to exit.");
}

#[test]
fn test_welcome_message() {
    assert_eq!(
        gba_core::tui::welcome_message("auth"),
        "Welcome! Let's plan the feature: auth\n\nDescribe what you want to build.\n\nType '/finalize' or '/done' when you're ready to generate the specification."
    );
}

#[test]
fn test_outcome() {
    let mut app = App::new("f".to_string(), false);
    assert_eq!(app.outcome(None), Ok(None));
    app.set_completed("0001".to_string());
    assert_eq!(app.outcome(Some("0001".to_string())), Ok(Some("0001".to_string())));
    app.set_error("send failed".to_string());
    assert_eq!(app.outcome(Some("0001".to_string())), Err("send failed".to_string()));
}

#[test]
fn test_screen_lines() {
    let mut app = App::new("f".to_string(), false);
    app.add_user_message("one\r\ntwo".to_string());
    let l = app.screen_lines();
    let expect = vec![
        ScreenLine { kind: LineKind::Header(Sender::User), text: "You: ".to_string() },
        ScreenLine { kind: LineKind::Content(Sender::User), text: "one".to_string() },
        ScreenLine { kind: LineKind::Content(Sender::User), text: "two".to_string() },
        ScreenLine { kind: LineKind::Blank, text: String::new() },
        ScreenLine { kind: LineKind::Blank, text: String::new() },
        ScreenLine {
            kind: LineKind::Status,
            text: " [Ready. Enter to send, Esc to cancel. Type /finalize or /done when ready, or Ctrl+F.]".to_string(),
        },
    ];
    assert_eq!(l, expect);
}
