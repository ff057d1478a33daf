//! State of a planning session: multi-round dialogue, then one finalisation that
//! assigns the feature id and writes the specs.

use vstd::prelude::*;

use crate::error::GbaCoreError;
use crate::preset::AgentPreset;
use crate::text::views;
use crate::workspace::{numbers_below_max, spec_next_feature_id, Workspace};

verus! {

/// Planning session state.
#[derive(Debug, Clone, Copy, PartialEq, Eq, Structural)]
pub enum PlanState {
    /// Multi-round dialogue (read-only agent).
    Dialogue,
    /// Finalising the specs (spec-writing agent).
    Finalizing,
    /// Finished.
    Completed,
}

/// The bookkeeping of a planning session: which feature it plans, the id assigned at
/// finalisation, and where it stands.
#[derive(Debug, Clone)]
pub struct PlanSession {
    feature_slug: String,
    feature_id: Option<String>,
    state: PlanState,
}

/// The message of the error returned when sending after finalisation.
pub open spec fn send_refused_message() -> Seq<char> {
    "Cannot send messages after finalization"@
}

/// The message of the error returned when finalising twice.
pub open spec fn finalize_refused_message() -> Seq<char> {
    "Session already finalized"@
}

/// Messages may be sent only during the dialogue.
pub open spec fn send_allowed(state: PlanState) -> bool {
    state == PlanState::Dialogue
}

/// Finalisation may start (or restart after a failure) until the session completes.
pub open spec fn finalize_allowed(state: PlanState) -> bool {
    state != PlanState::Completed
}

/// The preset of the agent session of each planning state: the dialogue only reads,
/// the finalisation writes the specs.
pub open spec fn plan_stage_preset(state: PlanState) -> Option<AgentPreset> {
    match state {
        PlanState::Dialogue => Some(AgentPreset::ReadOnly),
        PlanState::Finalizing => Some(AgentPreset::WriteSpec),
        PlanState::Completed => None,
    }
}

impl PlanSession {
    /// Where the session stands.
    pub closed spec fn spec_state(&self) -> PlanState {
        self.state
    }

    /// The planned feature's slug.
    pub closed spec fn spec_slug(&self) -> Seq<char> {
        self.feature_slug@
    }

    /// The assigned feature id, if any.
    pub closed spec fn spec_feature_id(&self) -> Option<Seq<char>> {
        match self.feature_id {
            Some(id) => Some(id@),
            None => None,
        }
    }

    /// A new session for `feature_slug`, in dialogue and without a feature id.
    pub fn new(feature_slug: &str) -> (r: Self)
        ensures
            r.spec_state() == PlanState::Dialogue,
            r.spec_slug() == feature_slug@,
            r.spec_feature_id() is None,
    {
        PlanSession {
            feature_slug: String::from_str(feature_slug),
            feature_id: None,
            state: PlanState::Dialogue,
        }
    }

    /// Where the session stands.
    pub fn state(&self) -> (r: PlanState)
        ensures
            r == self.spec_state(),
    {
        self.state
    }

    /// Returns the feature ID if one was assigned.
    pub fn feature_id(&self) -> (r: Option<&str>)
        ensures
            match r {
                Some(s) => self.spec_feature_id() == Some(s@),
                None => self.spec_feature_id() is None,
            },
    {
        match &self.feature_id {
            Some(id) => Some(id.as_str()),
            None => None,
        }
    }

    /// Returns the feature slug.
    pub fn feature_slug(&self) -> (r: &str)
        ensures
            r@ == self.spec_slug(),
    {
        self.feature_slug.as_str()
    }

    /// Returns `true` if the session has been finalized.
    pub fn is_finalized(&self) -> (r: bool)
        ensures
            r == (self.spec_state() == PlanState::Completed),
    {
        self.state == PlanState::Completed
    }

    /// Checks that a message may be sent: only during the dialogue.
    pub fn check_send(&self) -> (r: Result<(), GbaCoreError>)
        ensures
            r is Ok <==> send_allowed(self.spec_state()),
            r matches Err(e) ==> e matches GbaCoreError::PlanError(m) && m@
                == send_refused_message(),
    {
        if self.state != PlanState::Dialogue {
            return Err(
                GbaCoreError::PlanError(
                    String::from_str("Cannot send messages after finalization"),
                ),
            );
        }
        Ok(())
    }

    /// Checks that finalisation may start: refused once the session has completed.
    pub fn check_finalize(&self) -> (r: Result<(), GbaCoreError>)
        ensures
            r is Ok <==> finalize_allowed(self.spec_state()),
            r matches Err(e) ==> e matches GbaCoreError::PlanError(m) && m@
                == finalize_refused_message(),
    {
        if self.state == PlanState::Completed {
            return Err(GbaCoreError::PlanError(String::from_str("Session already finalized")));
        }
        Ok(())
    }

    /// Starts finalising: refused once the session has completed; otherwise the
    /// session moves to `Finalizing`.
    pub fn begin_finalize(&mut self) -> (r: Result<(), GbaCoreError>)
        ensures
            r is Ok <==> finalize_allowed(old(self).spec_state()),
            r is Ok ==> final(self).spec_state() == PlanState::Finalizing,
            r matches Err(e) ==> e matches GbaCoreError::PlanError(m) && m@
                == finalize_refused_message() && *final(self) == *old(self),
            final(self).spec_slug() == old(self).spec_slug(),
            final(self).spec_feature_id() == old(self).spec_feature_id(),
    {
        if self.state == PlanState::Completed {
            return Err(GbaCoreError::PlanError(String::from_str("Session already finalized")));
        }
        self.state = PlanState::Finalizing;
        Ok(())
    }

    /// The preset of the agent session of the current state, if it runs one.
    pub fn preset(&self) -> (r: Option<AgentPreset>)
        ensures
            r == plan_stage_preset(self.spec_state()),
    {
        match self.state {
            PlanState::Dialogue => Some(AgentPreset::ReadOnly),
            PlanState::Finalizing => Some(AgentPreset::WriteSpec),
            PlanState::Completed => None,
        }
    }

    /// Numbers the feature during finalisation, given the names of the entries of the
    /// specs directory: its id is the workspace's next feature id, recorded as the
    /// session's feature id.
    pub fn assign_next_feature_id(&mut self, names: &Vec<String>) -> (r: String)
        requires
            numbers_below_max(views(names@)),
        ensures
            r@ == spec_next_feature_id(views(names@)),
            final(self).spec_feature_id() == Some(r@),
            final(self).spec_state() == old(self).spec_state(),
            final(self).spec_slug() == old(self).spec_slug(),
    {
        let id = Workspace::next_feature_id_from(names);
        self.feature_id = Some(id.clone());
        id
    }

    /// Records the id assigned to the feature during finalisation.
    pub fn assign_feature_id(&mut self, feature_id: String)
        ensures
            final(self).spec_feature_id() == Some(feature_id@),
            final(self).spec_state() == old(self).spec_state(),
            final(self).spec_slug() == old(self).spec_slug(),
    {
        self.feature_id = Some(feature_id);
    }

    /// Marks the session as completed once the specs are written.
    pub fn complete(&mut self)
        requires
            old(self).spec_state() == PlanState::Finalizing,
        ensures
            final(self).spec_state() == PlanState::Completed,
            final(self).spec_feature_id() == old(self).spec_feature_id(),
            final(self).spec_slug() == old(self).spec_slug(),
    {
        self.state = PlanState::Completed;
    }
}

/// Once a session is finalized it accepts neither messages nor another
/// finalisation, while a session in dialogue accepts both.
pub proof fn law_finalized_is_final(state: PlanState)
    ensures
        state == PlanState::Completed ==> !send_allowed(state) && !finalize_allowed(state),
        state == PlanState::Dialogue ==> send_allowed(state) && finalize_allowed(state),
{
}

} // verus!
