//! State of the interactive planning screen: the chat history, the input line,
//! scrolling and the loading spinner.

use vstd::prelude::*;

use crate::text::{chars_of, line_at, lines, string_of_range};

verus! {

/// Spinner animation frames for the loading indicator.
pub const SPINNER_FRAMES: [&'static str; 10] = [
    "\u{280b}",
    "\u{2819}",
    "\u{2839}",
    "\u{2838}",
    "\u{283c}",
    "\u{2834}",
    "\u{2826}",
    "\u{2827}",
    "\u{2807}",
    "\u{280f}",
];

/// Message sender type.
#[derive(Debug, Clone, Copy, PartialEq, Eq, Structural)]
pub enum Sender {
    /// User message.
    User,
    /// Assistant message.
    Assistant,
}

/// Current state of the planning screen.
#[derive(Debug, Clone, Copy, PartialEq, Eq, Structural)]
pub enum AppState {
    /// In dialogue, waiting for user input.
    Dialogue,
    /// Waiting for the assistant's response.
    WaitingForResponse,
    /// Finalizing and generating specs.
    Finalizing,
    /// Completed successfully.
    Completed,
    /// Errored.
    Error,
}

/// A single message in the chat.
#[derive(Debug, Clone, PartialEq, Eq)]
pub struct ChatMessage {
    /// Who sent the message.
    pub sender: Sender,
    /// The message content.
    pub content: String,
}

/// Typing this line finishes the dialogue and writes the specs.
pub const FINALIZE_COMMAND: &'static str = "/finalize";

/// Typing this line also finishes the dialogue.
pub const DONE_COMMAND: &'static str = "/done";

/// A key press, as the planning screen sees it.
#[derive(Debug, Clone, Copy, PartialEq, Eq, Structural)]
pub enum KeyInput {
    /// A character key, with whether Control was held.
    Char {
        /// The character.
        c: char,
        /// Whether Control was held.
        ctrl: bool,
    },
    /// The backspace key.
    Backspace,
    /// The enter key.
    Enter,
    /// The escape key.
    Esc,
    /// Any other key.
    Other,
}

/// What the caller has to do after a key press.
#[derive(Debug, Clone, PartialEq, Eq)]
pub enum KeyAction {
    /// Nothing more: draw the screen again.
    Continue,
    /// Leave the screen, with the feature id when one was assigned.
    Quit(Option<String>),
    /// Send this message to the assistant; the screen now waits for the reply.
    Send(String),
    /// Finalise the session; the screen is now finalising.
    Finalize,
}

/// The line typed is one of the commands that finish the dialogue.
pub open spec fn is_finish_command(input: Seq<char>) -> bool {
    input == FINALIZE_COMMAND@ || input == DONE_COMMAND@
}

/// What a line of the message area shows.
#[derive(Debug, Clone, Copy, PartialEq, Eq, Structural)]
pub enum LineKind {
    /// The sender of the message that follows.
    Header(Sender),
    /// A line of a message by this sender.
    Content(Sender),
    /// An empty line.
    Blank,
    /// The status line.
    Status,
}

/// A line of the message area: its kind (which decides its style) and its text.
#[derive(Debug, Clone, PartialEq, Eq)]
pub struct ScreenLine {
    /// What the line shows.
    pub kind: LineKind,
    /// Its text.
    pub text: String,
}

/// The label that introduces a sender's message.
pub open spec fn sender_prefix(s: Sender) -> Seq<char> {
    match s {
        Sender::User => "You: "@,
        Sender::Assistant => "Assistant: "@,
    }
}

/// The lines of one message: the sender's label, each line of the text, a blank line.
pub open spec fn message_screen_lines(m: ChatMessage) -> Seq<(LineKind, Seq<char>)> {
    seq![(LineKind::Header(m.sender), sender_prefix(m.sender))] + lines(m.content@).map_values(
        |l: Seq<char>| (LineKind::Content(m.sender), l),
    ) + seq![(LineKind::Blank, Seq::<char>::empty())]
}

/// The lines of all messages, in order.
pub open spec fn messages_screen_lines(ms: Seq<ChatMessage>) -> Seq<(LineKind, Seq<char>)>
    decreases ms.len(),
{
    if ms.len() == 0 {
        seq![]
    } else {
        messages_screen_lines(ms.drop_last()) + message_screen_lines(ms.last())
    }
}

/// The kinds and texts of screen lines.
pub open spec fn line_views(v: Seq<ScreenLine>) -> Seq<(LineKind, Seq<char>)> {
    v.map_values(|l: ScreenLine| (l.kind, l.text@))
}

/// Appends the lines of one message.
fn push_message_lines(out: &mut Vec<ScreenLine>, m: &ChatMessage)
    ensures
        line_views(final(out)@) == line_views(old(out)@) + message_screen_lines(*m),
{
    let ghost base = line_views(out@);
    let prefix = match m.sender {
        Sender::User => String::from_str("You: "),
        Sender::Assistant => String::from_str("Assistant: "),
    };
    out.push(ScreenLine { kind: LineKind::Header(m.sender), text: prefix });
    let ghost head = seq![(LineKind::Header(m.sender), sender_prefix(m.sender))];
    assert(line_views(out@) =~= base + head);
    let v = chars_of(m.content.as_str());
    let n = v.len();
    let mut pos: usize = 0;
    let ghost mut done: Seq<Seq<char>> = seq![];
    assert(v@.subrange(0, n as int) =~= v@);
    while pos < n
        invariant
            n == v@.len(),
            v@ == m.content@,
            pos <= n,
            lines(v@) == done + lines(v@.subrange(pos as int, n as int)),
            line_views(out@) == base + head + done.map_values(
                |l: Seq<char>| (LineKind::Content(m.sender), l),
            ),
        decreases n - pos,
    {
        let (lo, hi, next) = line_at(&v, pos);
        let ghost before = line_views(out@);
        let ghost prev = done;
        let text = string_of_range(&v, lo, hi);
        out.push(ScreenLine { kind: LineKind::Content(m.sender), text });
        proof {
            let line = v@.subrange(lo as int, hi as int);
            done = done.push(line);
            assert(lines(v@) =~= done + lines(v@.subrange(next as int, n as int)));
            assert(line_views(out@) =~= before.push((LineKind::Content(m.sender), line)));
            assert(done.map_values(|l: Seq<char>| (LineKind::Content(m.sender), l)) =~= prev.map_values(
                |l: Seq<char>| (LineKind::Content(m.sender), l),
            ).push((LineKind::Content(m.sender), line)));
        }
        pos = next;
    }
    assert(lines(v@.subrange(n as int, n as int)) =~= Seq::<Seq<char>>::empty());
    assert(done + Seq::<Seq<char>>::empty() =~= done);
    let ghost mid = line_views(out@);
    out.push(ScreenLine { kind: LineKind::Blank, text: String::new() });
    assert(line_views(out@) =~= mid.push((LineKind::Blank, Seq::<char>::empty())));
    assert(line_views(out@) =~= base + message_screen_lines(*m));
}

/// Lines a message occupies on screen: its text lines, plus the sender line and
/// spacing.
pub open spec fn message_height(m: ChatMessage) -> nat {
    lines(m.content@).len() + 3
}

/// Lines all messages occupy.
pub open spec fn messages_height(ms: Seq<ChatMessage>) -> nat
    decreases ms.len(),
{
    if ms.len() == 0 {
        0
    } else {
        messages_height(ms.drop_last()) + message_height(ms.last())
    }
}

/// The largest useful scroll offset: the lines that do not fit in the visible height.
pub open spec fn max_scroll(total: nat, visible_height: nat) -> nat {
    if total > visible_height {
        (total - visible_height) as nat
    } else {
        0
    }
}

/// The status line shown in each state.
pub open spec fn spec_status_text(state: AppState) -> Seq<char> {
    match state {
        AppState::Dialogue => "Ready. Enter to send, Esc to cancel. Type /finalize or /done when ready, or Ctrl+F."@,
        AppState::WaitingForResponse => "Waiting for assistant response..."@,
        AppState::Finalizing => "Finalizing and generating specs..."@,
        AppState::Completed => "Planning complete! Press Enter to exit."@,
        AppState::Error => "Error occurred. Press Enter to exit."@,
    }
}

/// The first message of the planning screen.
pub open spec fn spec_welcome_message(feature_slug: Seq<char>) -> Seq<char> {
    "Welcome! Let's plan the feature: "@ + feature_slug
        + "\n\nDescribe what you want to build.\n\nType '"@ + FINALIZE_COMMAND@ + "' or '"@
        + DONE_COMMAND@ + "' when you're ready to generate the specification."@
}

/// The first message of the planning screen, for the feature being planned.
pub fn welcome_message(feature_slug: &str) -> (r: String)
    ensures
        r@ == spec_welcome_message(feature_slug@),
{
    let mut t = String::from_str("Welcome! Let's plan the feature: ");
    t.append(feature_slug);
    t.append("\n\nDescribe what you want to build.\n\nType '");
    t.append(FINALIZE_COMMAND);
    t.append("' or '");
    t.append(DONE_COMMAND);
    t.append("' when you're ready to generate the specification.");
    t
}

/// The offset used to mean "at the bottom"; it is clamped when drawing.
pub open spec fn bottom_offset() -> usize {
    (usize::MAX / 2) as usize
}

/// The loading animation: which of the `SPINNER_FRAMES` is shown.
#[derive(Debug, Clone, Copy)]
pub struct Spinner {
    frame: usize,
}

impl Spinner {
    /// The frame index always names one of the frames.
    #[verifier::type_invariant]
    spec fn inv(self) -> bool {
        self.frame < 10
    }

    /// The index of the frame shown.
    pub closed spec fn spec_frame(self) -> nat {
        self.frame as nat
    }

    /// The animation at its first frame.
    pub fn new() -> (r: Self)
        ensures
            r.spec_frame() == 0,
    {
        Spinner { frame: 0 }
    }

    /// Moves to the next frame (after the last, back to the first) and returns it.
    pub fn tick(&mut self) -> (r: &'static str)
        ensures
            final(self).spec_frame() == (old(self).spec_frame() + 1) % 10,
            final(self).spec_frame() < 10,
            r == SPINNER_FRAMES[final(self).spec_frame() as int],
    {
        proof {
            use_type_invariant(&*self);
        }
        self.frame = (self.frame + 1) % 10;
        SPINNER_FRAMES[self.frame]
    }

    /// The frame shown.
    pub fn frame(&self) -> (r: &'static str)
        ensures
            self.spec_frame() < 10,
            r == SPINNER_FRAMES[self.spec_frame() as int],
    {
        proof {
            use_type_invariant(self);
        }
        SPINNER_FRAMES[self.frame]
    }
}

/// Planning screen state.
#[derive(Debug, Clone)]
pub struct App {
    /// Feature slug being planned.
    pub feature_slug: String,
    /// Current state of the session.
    pub state: AppState,
    /// The input line being typed.
    pub input: String,
    /// Message history (user and assistant).
    pub messages: Vec<ChatMessage>,
    /// Vertical scroll offset in lines.
    pub scroll_offset: usize,
    /// Error message if in error state.
    pub error_message: Option<String>,
    /// Feature ID after finalization.
    pub feature_id: Option<String>,
    /// Pending message to send.
    pub pending_message: Option<String>,
    /// Whether to finalize after the current message.
    pub pending_finalize: bool,
    /// The loading animation.
    pub spinner: Spinner,
}

/// Number of lines of a text.
fn count_lines(s: &str) -> (r: usize)
    ensures
        r == lines(s@).len(),
{
    let v = chars_of(s);
    let n = v.len();
    let mut pos: usize = 0;
    let mut count: usize = 0;
    let ghost mut done: Seq<Seq<char>> = seq![];
    assert(v@.subrange(0, n as int) =~= v@);
    while pos < n
        invariant
            n == v@.len(),
            v@ == s@,
            count <= pos <= n,
            count == done.len(),
            lines(v@) == done + lines(v@.subrange(pos as int, n as int)),
        decreases n - pos,
    {
        let (lo, hi, next) = line_at(&v, pos);
        proof {
            let line = v@.subrange(lo as int, hi as int);
            let prev = done;
            done = done.push(line);
            assert(lines(v@) =~= done + lines(v@.subrange(next as int, n as int)));
        }
        count = count + 1;
        pos = next;
    }
    assert(lines(v@.subrange(n as int, n as int)) =~= Seq::<Seq<char>>::empty());
    assert(done + Seq::<Seq<char>>::empty() =~= done);
    count
}

proof fn lemma_height_prefix_mono(ms: Seq<ChatMessage>, i: int)
    requires
        0 <= i <= ms.len(),
    ensures
        messages_height(ms.subrange(0, i)) <= messages_height(ms),
    decreases ms.len() - i,
{
    if i < ms.len() {
        lemma_height_prefix_mono(ms, i + 1);
        let p = ms.subrange(0, i + 1);
        assert(p.drop_last() =~= ms.subrange(0, i));
    } else {
        assert(ms.subrange(0, i) =~= ms);
    }
}

impl App {
    /// The screen has ended (completed or errored) and holds a feature id.
    pub open spec fn spec_should_quit(&self) -> bool {
        (self.state == AppState::Error || self.state == AppState::Completed)
            && self.feature_id is Some
    }

    /// Lines all messages occupy.
    pub open spec fn spec_total_lines(&self) -> nat {
        messages_height(self.messages@)
    }

    /// Creates a new planning screen for a feature.
    pub fn new(feature_slug: String, verbose: bool) -> (r: Self)
        ensures
            r.feature_slug == feature_slug,
            r.state == AppState::Dialogue,
            r.input@.len() == 0,
            r.messages@.len() == 0,
            r.scroll_offset == 0,
            r.error_message is None,
            r.feature_id is None,
            r.pending_message is None,
            !r.pending_finalize,
            r.spinner.spec_frame() == 0,
    {
        App {
            feature_slug,
            state: AppState::Dialogue,
            input: String::new(),
            messages: Vec::new(),
            scroll_offset: 0,
            error_message: None,
            feature_id: None,
            pending_message: None,
            pending_finalize: false,
            spinner: Spinner::new(),
        }
    }

    /// Returns the input text.
    pub fn input_text(&self) -> (r: String)
        ensures
            r@ == self.input@,
    {
        self.input.clone()
    }

    /// Clears the input buffer.
    pub fn clear_input(&mut self)
        ensures
            final(self).input@.len() == 0,
            *final(self) == (App { input: final(self).input, ..*old(self) }),
    {
        self.input = String::new();
    }

    /// Types a character into the input.
    pub fn handle_char(&mut self, c: char)
        ensures
            final(self).input@ == old(self).input@.push(c),
            *final(self) == (App { input: final(self).input, ..*old(self) }),
    {
        crate::text::push_char(&mut self.input, c);
    }

    /// Deletes the last character of the input, if any.
    pub fn handle_backspace(&mut self)
        ensures
            final(self).input@ == if old(self).input@.len() > 0 {
                old(self).input@.drop_last()
            } else {
                old(self).input@
            },
            *final(self) == (App { input: final(self).input, ..*old(self) }),
    {
        let v = chars_of(self.input.as_str());
        if v.len() > 0 {
            self.input = string_of_range(&v, 0, v.len() - 1);
            assert(v@.subrange(0, v@.len() - 1) =~= v@.drop_last());
        }
    }

    /// Adds a user message to the history and scrolls to the bottom.
    pub fn add_user_message(&mut self, content: String)
        ensures
            final(self).messages@ == old(self).messages@.push(
                ChatMessage { sender: Sender::User, content },
            ),
            final(self).scroll_offset == bottom_offset(),
            *final(self) == (App {
                messages: final(self).messages,
                scroll_offset: final(self).scroll_offset,
                ..*old(self)
            }),
    {
        self.messages.push(ChatMessage { sender: Sender::User, content });
        self.scroll_to_bottom();
    }

    /// Adds an assistant message to the history and scrolls to the bottom.
    pub fn add_assistant_message(&mut self, content: String)
        ensures
            final(self).messages@ == old(self).messages@.push(
                ChatMessage { sender: Sender::Assistant, content },
            ),
            final(self).scroll_offset == bottom_offset(),
            *final(self) == (App {
                messages: final(self).messages,
                scroll_offset: final(self).scroll_offset,
                ..*old(self)
            }),
    {
        self.messages.push(ChatMessage { sender: Sender::Assistant, content });
        self.scroll_to_bottom();
    }

    /// The total number of lines of all messages, if it fits in a `usize`.
    pub fn checked_total_lines(&self) -> (r: Option<usize>)
        ensures
            match r {
                Some(t) => t == self.spec_total_lines(),
                None => self.spec_total_lines() > usize::MAX,
            },
    {
        let mut total: usize = 0;
        let mut i: usize = 0;
        assert(self.messages@.subrange(0, 0) =~= Seq::<ChatMessage>::empty());
        while i < self.messages.len()
            invariant
                i <= self.messages@.len(),
                total == messages_height(self.messages@.subrange(0, i as int)),
            decreases self.messages@.len() - i,
        {
            let k = count_lines(self.messages[i].content.as_str());
            proof {
                let p = self.messages@.subrange(0, i + 1);
                assert(p.drop_last() =~= self.messages@.subrange(0, i as int));
                assert(p.last() == self.messages@[i as int]);
                lemma_height_prefix_mono(self.messages@, i + 1);
            }
            if k > usize::MAX - 3 || total > usize::MAX - 3 - k {
                return None;
            }
            total = total + k + 3;
            i = i + 1;
        }
        assert(self.messages@.subrange(0, self.messages@.len() as int) =~= self.messages@);
        Some(total)
    }

    /// Returns the total number of lines in all messages.
    pub fn total_lines(&self) -> (r: usize)
        requires
            self.spec_total_lines() <= usize::MAX,
        ensures
            r == self.spec_total_lines(),
    {
        match self.checked_total_lines() {
            Some(t) => t,
            None => 0,
        }
    }

    /// Scrolls up by one line.
    pub fn scroll_up(&mut self)
        ensures
            final(self).scroll_offset == if old(self).scroll_offset > 0 {
                old(self).scroll_offset - 1
            } else {
                0
            },
            *final(self) == (App { scroll_offset: final(self).scroll_offset, ..*old(self) }),
    {
        self.scroll_offset = self.scroll_offset.saturating_sub(1);
    }

    /// Scrolls down by `step` lines, but not past the last screenful.
    fn scroll_down_by(&mut self, step: usize, visible_height: usize)
        requires
            old(self).spec_total_lines() <= usize::MAX,
        ensures
            final(self).scroll_offset == vstd::math::min(
                vstd::math::min(old(self).scroll_offset + step, usize::MAX as int),
                max_scroll(old(self).spec_total_lines(), visible_height as nat) as int,
            ),
            *final(self) == (App { scroll_offset: final(self).scroll_offset, ..*old(self) }),
    {
        let max = self.total_lines().saturating_sub(visible_height);
        let next = self.scroll_offset.saturating_add(step);
        self.scroll_offset = if next < max {
            next
        } else {
            max
        };
    }

    /// Scrolls down by one line, but not past the last screenful.
    pub fn scroll_down(&mut self, visible_height: usize)
        requires
            old(self).spec_total_lines() <= usize::MAX,
        ensures
            final(self).scroll_offset == vstd::math::min(
                vstd::math::min(old(self).scroll_offset + 1, usize::MAX as int),
                max_scroll(old(self).spec_total_lines(), visible_height as nat) as int,
            ),
            *final(self) == (App { scroll_offset: final(self).scroll_offset, ..*old(self) }),
    {
        self.scroll_down_by(1, visible_height);
    }

    /// Scrolls up by one page.
    pub fn page_up(&mut self, page_size: usize)
        ensures
            final(self).scroll_offset == if old(self).scroll_offset > page_size {
                old(self).scroll_offset - page_size
            } else {
                0
            },
            *final(self) == (App { scroll_offset: final(self).scroll_offset, ..*old(self) }),
    {
        self.scroll_offset = self.scroll_offset.saturating_sub(page_size);
    }

    /// Scrolls down by one page, but not past the last screenful.
    pub fn page_down(&mut self, page_size: usize, visible_height: usize)
        requires
            old(self).spec_total_lines() <= usize::MAX,
        ensures
            final(self).scroll_offset == vstd::math::min(
                vstd::math::min(old(self).scroll_offset + page_size, usize::MAX as int),
                max_scroll(old(self).spec_total_lines(), visible_height as nat) as int,
            ),
            *final(self) == (App { scroll_offset: final(self).scroll_offset, ..*old(self) }),
    {
        self.scroll_down_by(page_size, visible_height);
    }

    /// Scrolls to the bottom of the message history.
    pub fn scroll_to_bottom(&mut self)
        ensures
            final(self).scroll_offset == bottom_offset(),
            *final(self) == (App { scroll_offset: final(self).scroll_offset, ..*old(self) }),
    {
        self.scroll_offset = usize::MAX / 2;
    }

    /// Returns `true` if the app should quit: it has ended (completed or errored) and
    /// holds a feature id.
    pub fn should_quit(&self) -> (r: bool)
        ensures
            r == self.spec_should_quit(),
    {
        (self.state == AppState::Error || self.state == AppState::Completed)
            && self.feature_id.is_some()
    }

    /// Sets the error state with a message.
    pub fn set_error(&mut self, message: String)
        ensures
            final(self).state == AppState::Error,
            final(self).error_message == Some(message),
            *final(self) == (App {
                state: final(self).state,
                error_message: final(self).error_message,
                ..*old(self)
            }),
    {
        self.state = AppState::Error;
        self.error_message = Some(message);
    }

    /// Sets the completed state with the feature ID.
    pub fn set_completed(&mut self, feature_id: String)
        ensures
            final(self).state == AppState::Completed,
            final(self).feature_id == Some(feature_id),
            *final(self) == (App {
                state: final(self).state,
                feature_id: final(self).feature_id,
                ..*old(self)
            }),
    {
        self.state = AppState::Completed;
        self.feature_id = Some(feature_id);
    }

    /// Handles a key press: edits the input line, or tells the caller to quit, to
    /// send a message or to finalise. Keys are ignored while the screen waits for
    /// the assistant; once it has ended, Enter or Esc leaves it.
    pub fn handle_key(&mut self, key: KeyInput) -> (r: KeyAction)
        ensures
            match old(self).state {
                AppState::Dialogue => match key {
                    KeyInput::Char { c, ctrl } => if ctrl && (c == 'c' || c == 'd') {
                        r == KeyAction::Quit(None) && *final(self) == *old(self)
                    } else if ctrl && c == 'f' {
                        r == KeyAction::Finalize && *final(self) == (App {
                            state: AppState::Finalizing,
                            ..*old(self)
                        })
                    } else {
                        r == KeyAction::Continue && final(self).input@ == old(self).input@.push(c)
                            && *final(self) == (App { input: final(self).input, ..*old(self) })
                    },
                    KeyInput::Backspace => r == KeyAction::Continue && final(self).input@ == (
                    if old(self).input@.len() > 0 {
                        old(self).input@.drop_last()
                    } else {
                        old(self).input@
                    }) && *final(self) == (App { input: final(self).input, ..*old(self) }),
                    KeyInput::Enter => if is_finish_command(old(self).input@) {
                        r == KeyAction::Finalize && final(self).input@.len() == 0 && *final(self)
                            == (App {
                            input: final(self).input,
                            state: AppState::Finalizing,
                            ..*old(self)
                        })
                    } else if old(self).input@.len() > 0 {
                        &&& r matches KeyAction::Send(m) && m@ == old(self).input@
                        &&& final(self).messages@ == old(self).messages@.push(
                            ChatMessage { sender: Sender::User, content: old(self).input },
                        )
                        &&& final(self).input@.len() == 0
                        &&& final(self).scroll_offset == bottom_offset()
                        &&& *final(self) == (App {
                            input: final(self).input,
                            messages: final(self).messages,
                            scroll_offset: final(self).scroll_offset,
                            state: AppState::WaitingForResponse,
                            ..*old(self)
                        })
                    } else {
                        r == KeyAction::Continue && *final(self) == *old(self)
                    },
                    KeyInput::Esc => r == KeyAction::Quit(None) && *final(self) == *old(self),
                    KeyInput::Other => r == KeyAction::Continue && *final(self) == *old(self),
                },
                AppState::WaitingForResponse | AppState::Finalizing => r == KeyAction::Continue
                    && *final(self) == *old(self),
                AppState::Completed | AppState::Error => *final(self) == *old(self) && if key
                    == KeyInput::Enter || key == KeyInput::Esc {
                    r == KeyAction::Quit(old(self).feature_id)
                } else {
                    r == KeyAction::Continue
                },
            },
    {
        match self.state {
            AppState::Dialogue => match key {
                KeyInput::Char { c, ctrl } => {
                    if ctrl && (c == 'c' || c == 'd') {
                        return KeyAction::Quit(None);
                    }
                    if ctrl && c == 'f' {
                        self.state = AppState::Finalizing;
                        return KeyAction::Finalize;
                    }
                    self.handle_char(c);
                    KeyAction::Continue
                },
                KeyInput::Backspace => {
                    self.handle_backspace();
                    KeyAction::Continue
                },
                KeyInput::Enter => {
                    let input = self.input.clone();
                    let finalize = String::from_str(FINALIZE_COMMAND);
                    let done = String::from_str(DONE_COMMAND);
                    if input == finalize || input == done {
                        self.clear_input();
                        self.state = AppState::Finalizing;
                        return KeyAction::Finalize;
                    }
                    if input.as_str().is_empty() {
                        return KeyAction::Continue;
                    }
                    self.add_user_message(input.clone());
                    self.clear_input();
                    self.state = AppState::WaitingForResponse;
                    KeyAction::Send(input)
                },
                KeyInput::Esc => KeyAction::Quit(None),
                KeyInput::Other => KeyAction::Continue,
            },
            AppState::WaitingForResponse | AppState::Finalizing => KeyAction::Continue,
            AppState::Completed | AppState::Error => {
                if key == KeyInput::Enter || key == KeyInput::Esc {
                    KeyAction::Quit(self.feature_id.clone())
                } else {
                    KeyAction::Continue
                }
            },
        }
    }

    /// Records the assistant's reply to a sent message (its text pieces joined
    /// without separator): shown when not empty, and the dialogue resumes.
    pub fn reply_received(&mut self, reply: String)
        ensures
            final(self).state == AppState::Dialogue,
            reply@.len() > 0 ==> final(self).messages@ == old(self).messages@.push(
                ChatMessage { sender: Sender::Assistant, content: reply },
            ) && final(self).scroll_offset == bottom_offset(),
            reply@.len() == 0 ==> final(self).messages == old(self).messages
                && final(self).scroll_offset == old(self).scroll_offset,
            *final(self) == (App {
                messages: final(self).messages,
                scroll_offset: final(self).scroll_offset,
                state: final(self).state,
                ..*old(self)
            }),
    {
        if !reply.as_str().is_empty() {
            self.add_assistant_message(reply);
        }
        self.state = AppState::Dialogue;
    }

    /// Records the end of finalisation: completed with the assigned feature id, or
    /// an error when none was assigned.
    pub fn finalized(&mut self, feature_id: Option<String>)
        ensures
            match feature_id {
                Some(id) => final(self).state == AppState::Completed && final(self).feature_id
                    == Some(id) && *final(self) == (App {
                    state: final(self).state,
                    feature_id: final(self).feature_id,
                    ..*old(self)
                }),
                None => {
                    &&& final(self).state == AppState::Error
                    &&& final(self).error_message matches Some(m) && m@
                        == "Failed to get feature ID after finalization"@
                    &&& *final(self) == (App {
                        state: final(self).state,
                        error_message: final(self).error_message,
                        ..*old(self)
                    })
                },
            },
    {
        match feature_id {
            Some(id) => self.set_completed(id),
            None => self.set_error(
                String::from_str("Failed to get feature ID after finalization"),
            ),
        }
    }

    /// The text of the status line for the current state.
    pub fn status_text(&self) -> (r: &'static str)
        ensures
            r@ == spec_status_text(self.state),
    {
        match self.state {
            AppState::Dialogue => "Ready. Enter to send, Esc to cancel. Type /finalize or /done when ready, or Ctrl+F.",
            AppState::WaitingForResponse => "Waiting for assistant response...",
            AppState::Finalizing => "Finalizing and generating specs...",
            AppState::Completed => "Planning complete! Press Enter to exit.",
            AppState::Error => "Error occurred. Press Enter to exit.",
        }
    }

    /// The text of the box shown once the screen has ended: the feature id when
    /// completed, the error when errored; `None` otherwise.
    pub fn overlay_text(&self) -> (r: Option<String>)
        ensures
            match self.state {
                AppState::Completed => r matches Some(t) && t@ == "Feature ID: "@ + match self.feature_id {
                    Some(id) => id@,
                    None => "unknown"@,
                } + "\n\nPress Enter to exit."@,
                AppState::Error => r matches Some(t) && t@ == "Error: "@ + match self.error_message {
                    Some(e) => e@,
                    None => "Unknown error"@,
                } + "\n\nPress Enter to exit."@,
                _ => r is None,
            },
    {
        match self.state {
            AppState::Completed => {
                let mut t = String::from_str("Feature ID: ");
                match &self.feature_id {
                    Some(id) => t.append(id.as_str()),
                    None => t.append("unknown"),
                }
                t.append("\n\nPress Enter to exit.");
                Some(t)
            },
            AppState::Error => {
                let mut t = String::from_str("Error: ");
                match &self.error_message {
                    Some(e) => t.append(e.as_str()),
                    None => t.append("Unknown error"),
                }
                t.append("\n\nPress Enter to exit.");
                Some(t)
            },
            _ => None,
        }
    }

    /// The lines of the message area: every message in order, then a blank line and
    /// the status line ` [status]`.
    pub fn screen_lines(&self) -> (r: Vec<ScreenLine>)
        ensures
            line_views(r@) == messages_screen_lines(self.messages@) + seq![
                (LineKind::Blank, Seq::<char>::empty()),
                (LineKind::Status, " ["@ + spec_status_text(self.state) + "]"@),
            ],
    {
        let mut out: Vec<ScreenLine> = Vec::new();
        let mut i: usize = 0;
        assert(line_views(out@) =~= messages_screen_lines(self.messages@.subrange(0, 0)));
        while i < self.messages.len()
            invariant
                i <= self.messages@.len(),
                line_views(out@) == messages_screen_lines(self.messages@.subrange(0, i as int)),
            decreases self.messages@.len() - i,
        {
            push_message_lines(&mut out, &self.messages[i]);
            proof {
                let p = self.messages@.subrange(0, i + 1);
                assert(p.drop_last() =~= self.messages@.subrange(0, i as int));
                assert(p.last() == self.messages@[i as int]);
            }
            i = i + 1;
        }
        assert(self.messages@.subrange(0, self.messages@.len() as int) =~= self.messages@);
        let ghost mid = line_views(out@);
        out.push(ScreenLine { kind: LineKind::Blank, text: String::new() });
        let mut status = String::from_str(" [");
        status.append(self.status_text());
        status.append("]");
        out.push(ScreenLine { kind: LineKind::Status, text: status });
        assert(line_views(out@) =~= mid + seq![
            (LineKind::Blank, Seq::<char>::empty()),
            (LineKind::Status, " ["@ + spec_status_text(self.state) + "]"@),
        ]);
        out
    }

    /// How the planning ends when the screen is left: the session's failure, with the
    /// stored message, when the screen is in its error state; otherwise `feature_id`
    /// (the id assigned, or `None` when planning was cancelled).
    pub fn outcome(&self, feature_id: Option<String>) -> (r: Result<Option<String>, String>)
        ensures
            r is Err <==> self.state == AppState::Error,
            r matches Err(m) ==> m@ == match self.error_message {
                Some(e) => e@,
                None => "Unknown error"@,
            },
            r matches Ok(id) ==> id == feature_id,
    {
        if self.state == AppState::Error {
            return Err(match &self.error_message {
                Some(e) => e.clone(),
                None => String::from_str("Unknown error"),
            });
        }
        Ok(feature_id)
    }

    /// Advances the spinner animation and returns the new frame.
    pub fn tick_spinner(&mut self) -> (r: &'static str)
        ensures
            final(self).spinner.spec_frame() == (old(self).spinner.spec_frame() + 1) % 10,
            r == SPINNER_FRAMES[final(self).spinner.spec_frame() as int],
            *final(self) == (App { spinner: final(self).spinner, ..*old(self) }),
    {
        self.spinner.tick()
    }

    /// Returns the current spinner frame without advancing.
    pub fn spinner(&self) -> (r: &'static str)
        ensures
            r == SPINNER_FRAMES[self.spinner.spec_frame() as int],
    {
        self.spinner.frame()
    }
}

/// Completing the session makes the screen quit, whatever state it was in; a
/// screen that never received a feature id does not quit, even after an error.
pub proof fn law_completion_quits(app: App, feature_id: String, message: String)
    ensures
        (App { state: AppState::Completed, feature_id: Some(feature_id), ..app }).spec_should_quit(),
        app.feature_id is None ==> !(App {
            state: AppState::Error,
            error_message: Some(message),
            ..app
        }).spec_should_quit(),
{
}

/// Exactly two typed lines finish the dialogue: "/finalize" and "/done". So Enter on
/// either of them, in the dialogue, finalises (see `App::handle_key`), and Enter on any
/// other non-empty line sends it.
pub proof fn law_finish_commands(input: Seq<char>)
    ensures
        is_finish_command(input) <==> (input == "/finalize"@ || input == "/done"@),
        is_finish_command("/finalize"@),
        is_finish_command("/done"@),
{
}

} // verus!
