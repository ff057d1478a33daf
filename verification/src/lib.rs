//! Verified core of a git-based coding agent: configuration, workspace layout,
//! prompt identifiers, contexts and templates, design-spec phase parsing, review and
//! verification decisions, git command sequencing, the order of the workflows, and
//! the state of the interactive planning session.
//!
//! Talking to the agent service, running processes and touching the file system
//! are left to the caller; the library computes what to run and reads what came
//! back.

#[allow(unused_imports)]
use vstd::prelude::*;

pub mod config;
pub mod context;
pub mod display;
pub mod engine;
pub mod error;
pub mod event;
pub mod git;
pub mod manager;
pub mod order;
pub mod path;
pub mod plan;
pub mod preset;
pub mod prompt_id;
pub mod reviewer;
pub mod runner;
pub mod session;
pub mod text;
pub mod tui;
pub mod verification;
pub mod workspace;

pub use config::{GbaConfig, SessionConfig, SessionsConfig};
pub use context::{GbaMdEntry, PromptContext};
pub use display::{display_assistant_message, display_event};
pub use engine::DirectoryInfo;
pub use error::GbaCoreError;
pub use event::GbaEvent;
pub use git::{CommitProgress, GitOps, ProcessOutput, ProcessRequest};
pub use manager::PromptManager;
pub use plan::{PlanSession, PlanState};
pub use preset::AgentPreset;
pub use prompt_id::{PromptId, PromptRole};
pub use reviewer::{FixLoop, ReviewIssue, ReviewResult, Reviewer};
pub use runner::{parse_phases, Phase, Runner};
pub use session::{AgentMessage, SessionOptions, TextCollector};
pub use tui::{App, AppState, ChatMessage, KeyAction, KeyInput, Sender};
pub use verification::{VerificationFields, VerificationResult, Verifier};
pub use workspace::Workspace;
