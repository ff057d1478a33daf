//! Configuration types.

use vstd::prelude::*;

use crate::path::{join, join_path};

verus! {

/// The model used by default in every session.
pub const DEFAULT_MODEL: &'static str = "sonnet";

/// Single session configuration parameters.
#[derive(Debug, Clone, PartialEq, Eq)]
pub struct SessionConfig {
    /// Model name (e.g., "sonnet").
    pub model: String,
    /// Maximum conversation turns.
    pub max_turns: usize,
}

impl Default for SessionConfig {
    fn default() -> (r: Self)
        ensures
            r.model@ == DEFAULT_MODEL@,
            r.max_turns == 10,
    {
        SessionConfig { model: String::from_str(DEFAULT_MODEL), max_turns: 10 }
    }
}

impl SessionConfig {
    /// Creates a new `SessionConfig` with the specified model and max_turns.
    pub fn new(model: &str, max_turns: usize) -> (r: Self)
        ensures
            r.model@ == model@,
            r.max_turns == max_turns,
    {
        SessionConfig { model: String::from_str(model), max_turns }
    }

    /// A copy of this configuration.
    pub fn copied(&self) -> (r: Self)
        ensures
            r == *self,
    {
        SessionConfig { model: self.model.clone(), max_turns: self.max_turns }
    }
}

/// Session configuration for each scenario.
#[derive(Debug, Clone, PartialEq, Eq)]
pub struct SessionsConfig {
    /// Configuration for repository initialisation.
    pub init: SessionConfig,
    /// Configuration for planning.
    pub plan: SessionConfig,
    /// Configuration for implementation phases.
    pub run_phase: SessionConfig,
    /// Configuration for review.
    pub run_review: SessionConfig,
    /// Configuration for verification.
    pub run_verify: SessionConfig,
}

/// The default sessions use the default model with 3, 30, 20, 5 and 10 turns.
pub open spec fn is_default_sessions(s: SessionsConfig) -> bool {
    &&& s.init.model@ == DEFAULT_MODEL@ && s.init.max_turns == 3
    &&& s.plan.model@ == DEFAULT_MODEL@ && s.plan.max_turns == 30
    &&& s.run_phase.model@ == DEFAULT_MODEL@ && s.run_phase.max_turns == 20
    &&& s.run_review.model@ == DEFAULT_MODEL@ && s.run_review.max_turns == 5
    &&& s.run_verify.model@ == DEFAULT_MODEL@ && s.run_verify.max_turns == 10
}

impl Default for SessionsConfig {
    fn default() -> (r: Self)
        ensures
            is_default_sessions(r),
    {
        SessionsConfig {
            init: SessionConfig::new(DEFAULT_MODEL, 3),
            plan: SessionConfig::new(DEFAULT_MODEL, 30),
            run_phase: SessionConfig::new(DEFAULT_MODEL, 20),
            run_review: SessionConfig::new(DEFAULT_MODEL, 5),
            run_verify: SessionConfig::new(DEFAULT_MODEL, 10),
        }
    }
}

/// Engine-wide configuration.
#[derive(Debug, Clone, PartialEq, Eq)]
pub struct GbaConfig {
    /// Working directory for the operations.
    pub working_dir: String,
    /// Session configurations for different scenarios.
    pub sessions: SessionsConfig,
    /// Path to the agent's command-line executable, when not the default one.
    pub cli_path: Option<String>,
}

/// The `.gba/` directory under `root`.
pub open spec fn spec_gba_dir(root: Seq<char>) -> Seq<char> {
    join_path(root, ".gba"@)
}

/// The specs directory under `root`.
pub open spec fn spec_specs_dir(root: Seq<char>) -> Seq<char> {
    join_path(spec_gba_dir(root), "specs"@)
}

/// The trees directory under `root`.
pub open spec fn spec_trees_dir(root: Seq<char>) -> Seq<char> {
    join_path(spec_gba_dir(root), "trees"@)
}

/// The configuration file under `root`.
pub open spec fn spec_config_file(root: Seq<char>) -> Seq<char> {
    join_path(spec_gba_dir(root), "config.yaml"@)
}

impl GbaConfig {
    /// Creates a configuration for `working_dir` with the default sessions.
    pub fn new(working_dir: &str) -> (r: Self)
        ensures
            r.working_dir@ == working_dir@,
            is_default_sessions(r.sessions),
            r.cli_path is None,
    {
        GbaConfig {
            working_dir: String::from_str(working_dir),
            sessions: SessionsConfig::default(),
            cli_path: None,
        }
    }

    /// Creates a configuration for `working_dir` with the given sessions.
    pub fn with_sessions(working_dir: &str, sessions: SessionsConfig) -> (r: Self)
        ensures
            r.working_dir@ == working_dir@,
            r.sessions == sessions,
            r.cli_path is None,
    {
        GbaConfig { working_dir: String::from_str(working_dir), sessions, cli_path: None }
    }

    /// Returns the path to the `.gba/` directory.
    pub fn gba_dir(&self) -> (r: String)
        ensures
            r@ == spec_gba_dir(self.working_dir@),
    {
        join(self.working_dir.as_str(), ".gba")
    }

    /// Returns the path to the `.gba/config.yaml` file.
    pub fn config_file(&self) -> (r: String)
        ensures
            r@ == spec_config_file(self.working_dir@),
    {
        join(self.gba_dir().as_str(), "config.yaml")
    }

    /// Returns the path to the `.gba/specs/` directory.
    pub fn specs_dir(&self) -> (r: String)
        ensures
            r@ == spec_specs_dir(self.working_dir@),
    {
        join(self.gba_dir().as_str(), "specs")
    }

    /// Returns the path to the `.gba/trees/` directory.
    pub fn trees_dir(&self) -> (r: String)
        ensures
            r@ == spec_trees_dir(self.working_dir@),
    {
        join(self.gba_dir().as_str(), "trees")
    }

    /// Returns the path to a feature's spec directory, `specs/{feature_id}_{feature_slug}`.
    pub fn feature_spec_dir(&self, feature_id: &str, feature_slug: &str) -> (r: String)
        ensures
            r@ == join_path(
                spec_specs_dir(self.working_dir@),
                feature_id@ + seq!['_'] + feature_slug@,
            ),
    {
        let mut name = String::from_str(feature_id);
        name.append("_");
        name.append(feature_slug);
        proof {
            reveal_strlit("_");
        }
        join(self.specs_dir().as_str(), name.as_str())
    }
}

} // verus!
