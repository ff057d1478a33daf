//! Events emitted while the engine works, for user interfaces to display.

use vstd::prelude::*;

use crate::text::{decimal, join, join_strings, usize_to_decimal, views};

verus! {

/// Events emitted during execution.
#[derive(Debug, Clone, PartialEq, Eq)]
#[non_exhaustive]
pub enum GbaEvent {
    /// Agent sent a text message.
    AssistantMessage(String),
    /// Agent is waiting for user input.
    WaitingForInput,
    /// A phase has started.
    PhaseStarted {
        /// Name of the phase.
        name: String,
        /// Current phase index (1-based).
        index: usize,
        /// Total number of phases.
        total: usize,
    },
    /// A phase has completed and changes have been committed.
    PhaseCommitted {
        /// Name of the phase.
        name: String,
    },
    /// Code review has started.
    ReviewStarted,
    /// Issues were found during review.
    IssuesFound(Vec<String>),
    /// Agent is fixing review issues.
    FixingIssues,
    /// Verification result.
    VerificationResult {
        /// Whether verification passed.
        passed: bool,
        /// Detailed verification output.
        details: String,
    },
    /// A pull request has been created.
    PrCreated {
        /// URL of the created pull request.
        url: String,
    },
    /// An error occurred during execution.
    Error(String),
}

/// The human-readable description of an event.
pub open spec fn spec_description(e: GbaEvent) -> Seq<char> {
    match e {
        GbaEvent::AssistantMessage(msg) => msg@,
        GbaEvent::WaitingForInput => "Waiting for user input..."@,
        GbaEvent::PhaseStarted { name, index, total } => "Starting phase "@ + decimal(
            index as nat,
        ) + "/"@ + decimal(total as nat) + ": "@ + name@,
        GbaEvent::PhaseCommitted { name } => "Phase completed and committed: "@ + name@,
        GbaEvent::ReviewStarted => "Starting code review..."@,
        GbaEvent::IssuesFound(issues) => "Found "@ + decimal(issues@.len()) + " issue(s): "@ + join(
            views(issues@),
            ", "@,
        ),
        GbaEvent::FixingIssues => "Fixing review issues..."@,
        GbaEvent::VerificationResult { passed, details } => if passed {
            "Verification passed: "@ + details@
        } else {
            "Verification failed: "@ + details@
        },
        GbaEvent::PrCreated { url } => "Pull request created: "@ + url@,
        GbaEvent::Error(msg) => "Error: "@ + msg@,
    }
}

/// The events that require the user's attention.
pub open spec fn spec_requires_attention(e: GbaEvent) -> bool {
    ||| e is WaitingForInput
    ||| e is IssuesFound
    ||| e is VerificationResult
    ||| e is Error
}

impl GbaEvent {
    /// Returns `true` if this event indicates an error.
    pub fn is_error(&self) -> (r: bool)
        ensures
            r == (*self is Error),
    {
        match self {
            GbaEvent::Error(_) => true,
            _ => false,
        }
    }

    /// Returns `true` if this event requires user attention.
    pub fn requires_attention(&self) -> (r: bool)
        ensures
            r == spec_requires_attention(*self),
    {
        match self {
            GbaEvent::WaitingForInput
            | GbaEvent::IssuesFound(_)
            | GbaEvent::VerificationResult { .. }
            | GbaEvent::Error(_) => true,
            _ => false,
        }
    }

    /// Returns a human-readable description of this event.
    pub fn description(&self) -> (r: String)
        ensures
            r@ == spec_description(*self),
    {
        match self {
            GbaEvent::AssistantMessage(msg) => msg.clone(),
            GbaEvent::WaitingForInput => String::from_str("Waiting for user input..."),
            GbaEvent::PhaseStarted { name, index, total } => {
                let mut r = String::from_str("Starting phase ");
                r.append(usize_to_decimal(*index).as_str());
                r.append("/");
                r.append(usize_to_decimal(*total).as_str());
                r.append(": ");
                r.append(name.as_str());
                r
            },
            GbaEvent::PhaseCommitted { name } => {
                let mut r = String::from_str("Phase completed and committed: ");
                r.append(name.as_str());
                r
            },
            GbaEvent::ReviewStarted => String::from_str("Starting code review..."),
            GbaEvent::IssuesFound(issues) => {
                let mut r = String::from_str("Found ");
                r.append(usize_to_decimal(issues.len()).as_str());
                r.append(" issue(s): ");
                r.append(join_strings(issues, ", ").as_str());
                r
            },
            GbaEvent::FixingIssues => String::from_str("Fixing review issues..."),
            GbaEvent::VerificationResult { passed, details } => {
                let mut r = if *passed {
                    String::from_str("Verification passed: ")
                } else {
                    String::from_str("Verification failed: ")
                };
                r.append(details.as_str());
                r
            },
            GbaEvent::PrCreated { url } => {
                let mut r = String::from_str("Pull request created: ");
                r.append(url.as_str());
                r
            },
            GbaEvent::Error(msg) => {
                let mut r = String::from_str("Error: ");
                r.append(msg.as_str());
                r
            },
        }
    }
}

/// Every error event requires the user's attention.
pub proof fn law_errors_require_attention(e: GbaEvent)
    ensures
        e is Error ==> spec_requires_attention(e),
{
}

} // verus!
