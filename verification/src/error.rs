//! Errors of the library.

use vstd::prelude::*;

verus! {

/// Errors that can occur during core operations.
///
/// Errors that come from the environment (file system, processes, the agent
/// service, serialisation) carry the text of the underlying error.
#[derive(Debug, Clone, PartialEq, Eq)]
pub enum GbaCoreError {
    /// Configuration error.
    ConfigError(String),
    /// Workspace management error (file system).
    WorkspaceError(String),
    /// Session management error.
    SessionError(String),
    /// Planning error.
    PlanError(String),
    /// Execution error.
    RunError(String),
    /// Review error.
    ReviewError(String),
    /// Prompt rendering error.
    PromptError(String),
    /// Agent service error.
    AgentError(String),
    /// JSON serialisation error.
    SerializationError(String),
    /// YAML serialisation error.
    YamlError(String),
}

/// The text shown for an error: what kind of error it is, then its detail.
pub open spec fn spec_error_message(e: GbaCoreError) -> Seq<char> {
    match e {
        GbaCoreError::ConfigError(m) => "Configuration error: "@ + m@,
        GbaCoreError::WorkspaceError(m) => "Workspace error: "@ + m@,
        GbaCoreError::SessionError(m) => "Session error: "@ + m@,
        GbaCoreError::PlanError(m) => "Planning error: "@ + m@,
        GbaCoreError::RunError(m) => "Run error: "@ + m@,
        GbaCoreError::ReviewError(m) => "Review error: "@ + m@,
        GbaCoreError::PromptError(m) => "Prompt error: "@ + m@,
        GbaCoreError::AgentError(m) => "Agent error: "@ + m@,
        GbaCoreError::SerializationError(m) => "JSON serialization error: "@ + m@,
        GbaCoreError::YamlError(m) => "YAML serialization error: "@ + m@,
    }
}

impl GbaCoreError {
    /// The text shown for the error.
    pub fn message(&self) -> (r: String)
        ensures
            r@ == spec_error_message(*self),
    {
        let (prefix, detail) = match self {
            GbaCoreError::ConfigError(m) => ("Configuration error: ", m),
            GbaCoreError::WorkspaceError(m) => ("Workspace error: ", m),
            GbaCoreError::SessionError(m) => ("Session error: ", m),
            GbaCoreError::PlanError(m) => ("Planning error: ", m),
            GbaCoreError::RunError(m) => ("Run error: ", m),
            GbaCoreError::ReviewError(m) => ("Review error: ", m),
            GbaCoreError::PromptError(m) => ("Prompt error: ", m),
            GbaCoreError::AgentError(m) => ("Agent error: ", m),
            GbaCoreError::SerializationError(m) => ("JSON serialization error: ", m),
            GbaCoreError::YamlError(m) => ("YAML serialization error: ", m),
        };
        let mut r = String::from_str(prefix);
        r.append(detail.as_str());
        r
    }
}

} // verus!
