//! What an agent session is configured with, and how its text replies are gathered.

use vstd::prelude::*;

use crate::config::SessionConfig;
use crate::event::GbaEvent;
use crate::preset::{spec_allowed_tools, AgentPreset};
use crate::text::{join, owned_strings, views};

verus! {

/// The options an agent session is created with.
#[derive(Debug, Clone, PartialEq, Eq)]
pub struct SessionOptions {
    /// Model name.
    pub model: String,
    /// Maximum conversation turns.
    pub max_turns: u32,
    /// Tools the agent may use.
    pub allowed_tools: Vec<String>,
    /// The session's system prompt.
    pub system_prompt: String,
    /// Whether tool permissions are granted without asking (always, within the
    /// allowed tools).
    pub bypass_permissions: bool,
    /// Path to the agent's command-line executable, when not the default one.
    pub cli_path: Option<String>,
}

impl SessionOptions {
    /// The options of a session with `preset`: the tools are exactly those of the
    /// preset (the security boundary), and the model and turn limit come from
    /// `config` (the turn limit truncated to 32 bits).
    pub fn new(
        preset: AgentPreset,
        config: &SessionConfig,
        system_prompt: String,
        cli_path: Option<String>,
    ) -> (r: Self)
        ensures
            views(r.allowed_tools@) == spec_allowed_tools(preset),
            r.model@ == config.model@,
            r.max_turns == config.max_turns as u32,
            r.system_prompt == system_prompt,
            r.bypass_permissions,
            r.cli_path == cli_path,
    {
        let tools = preset.allowed_tools();
        let allowed_tools = owned_strings(&tools);
        SessionOptions {
            model: config.model.clone(),
            max_turns: config.max_turns as u32,
            allowed_tools,
            system_prompt,
            bypass_permissions: true,
            cli_path,
        }
    }
}

/// A message of the agent's reply stream, with what the library reads of it.
#[derive(Debug, Clone, PartialEq, Eq)]
pub enum AgentMessage {
    /// Text from the assistant.
    Text(String),
    /// The assistant uses a tool.
    ToolUse {
        /// Name of the tool.
        name: String,
    },
    /// A tool returned.
    ToolResult {
        /// Name of the tool.
        name: String,
        /// What the tool returned.
        output: String,
    },
    /// The reply is complete.
    Completed,
}

/// The event a planning dialogue shows for a reply message, and whether the reply
/// is over: text is shown, completion means the assistant waits for input, tool
/// activity is not shown.
pub open spec fn spec_dialogue_event(m: AgentMessage) -> (Option<GbaEvent>, bool) {
    match m {
        AgentMessage::Text(t) => (Some(GbaEvent::AssistantMessage(t)), false),
        AgentMessage::Completed => (Some(GbaEvent::WaitingForInput), true),
        _ => (None, false),
    }
}

/// The event a planning dialogue shows for a reply message, and whether the reply
/// is over.
pub fn dialogue_event(m: AgentMessage) -> (r: (Option<GbaEvent>, bool))
    ensures
        r == spec_dialogue_event(m),
{
    match m {
        AgentMessage::Text(t) => (Some(GbaEvent::AssistantMessage(t)), false),
        AgentMessage::Completed => (Some(GbaEvent::WaitingForInput), true),
        _ => (None, false),
    }
}

/// `acc` with the text `t` appended on a new line (no newline before the first
/// text).
pub open spec fn append_text(acc: Seq<char>, t: Seq<char>) -> Seq<char> {
    if acc.len() == 0 {
        t
    } else {
        acc.push('\n') + t
    }
}

/// The texts appended in order, starting from nothing.
pub open spec fn collected(texts: Seq<Seq<char>>) -> Seq<char>
    decreases texts.len(),
{
    if texts.len() == 0 {
        seq![]
    } else {
        append_text(collected(texts.drop_last()), texts.last())
    }
}

/// Gathers the text messages of a reply, one per line.
#[derive(Debug, Clone)]
pub struct TextCollector {
    text: String,
}

impl TextCollector {
    /// The text gathered so far.
    pub closed spec fn spec_text(&self) -> Seq<char> {
        self.text@
    }

    /// A collector holding no text.
    pub fn new() -> (r: Self)
        ensures
            r.spec_text() == Seq::<char>::empty(),
    {
        TextCollector { text: String::new() }
    }

    /// Appends a text message, on a new line unless it is the first text.
    pub fn push(&mut self, t: &str)
        ensures
            final(self).spec_text() == append_text(old(self).spec_text(), t@),
    {
        if !self.text.as_str().is_empty() {
            self.text.append("\n");
            proof {
                reveal_strlit("\n");
            }
        }
        self.text.append(t);
        proof {
            if old(self).spec_text().len() > 0 {
                assert(old(self).spec_text() + "\n"@ =~= old(self).spec_text().push('\n'));
            }
        }
    }

    /// Takes in one message of a reply: text is gathered, the rest is skipped.
    /// Returns whether the reply is over.
    pub fn accept(&mut self, m: &AgentMessage) -> (r: bool)
        ensures
            r == (*m is Completed),
            match *m {
                AgentMessage::Text(t) => final(self).spec_text() == append_text(
                    old(self).spec_text(),
                    t@,
                ),
                _ => final(self).spec_text() == old(self).spec_text(),
            },
    {
        match m {
            AgentMessage::Text(t) => {
                self.push(t.as_str());
                false
            },
            AgentMessage::Completed => true,
            _ => false,
        }
    }

    /// The text gathered so far.
    pub fn text(&self) -> (r: &str)
        ensures
            r@ == self.spec_text(),
    {
        self.text.as_str()
    }
}

/// Gathering non-empty texts gives them joined by newlines.
pub proof fn law_collected_texts_are_joined(texts: Seq<Seq<char>>)
    requires
        forall|i: int| 0 <= i < texts.len() ==> (#[trigger] texts[i]).len() > 0,
    ensures
        collected(texts) == join(texts, "\n"@),
    decreases texts.len(),
{
    reveal_strlit("\n");
    if texts.len() > 0 {
        let t = texts.drop_last();
        assert forall|i: int| 0 <= i < t.len() implies (#[trigger] t[i]).len() > 0 by {
            assert(t[i] == texts[i]);
        }
        law_collected_texts_are_joined(t);
        if texts.len() == 1 {
            assert(t.len() == 0);
            assert(collected(t) =~= Seq::<char>::empty());
            assert(texts.last() == texts[0]);
        } else {
            lemma_collected_nonempty(t);
            assert(texts.last() == texts[texts.len() - 1]);
            assert(collected(t).push('\n') + texts.last() =~= collected(t) + "\n"@ + texts.last());
        }
    }
}

/// Gathering at least one non-empty text gives a non-empty result.
proof fn lemma_collected_nonempty(texts: Seq<Seq<char>>)
    requires
        texts.len() > 0,
        forall|i: int| 0 <= i < texts.len() ==> (#[trigger] texts[i]).len() > 0,
    ensures
        collected(texts).len() > 0,
    decreases texts.len(),
{
    assert(texts.last() == texts[texts.len() - 1]);
}

} // verus!
