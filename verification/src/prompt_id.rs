//! Prompt identifier and role types.

use vstd::prelude::*;

verus! {

/// The role of a prompt: System prompts set the agent's identity and rules for a
/// whole session; User prompts carry the instructions of one request.
#[derive(Debug, Clone, Copy, PartialEq, Eq, Hash, Structural)]
pub enum PromptRole {
    /// Sets the agent's identity, rules, and constraints.
    System,
    /// Specific task instructions.
    User,
}

/// Identifier for all prompt templates.
#[derive(Debug, Clone, Copy, PartialEq, Eq, Hash, Structural)]
#[non_exhaustive]
pub enum PromptId {
    /// System prompt for the repository analyst role.
    InitSystem,
    /// User prompt to analyze the repository structure and output a JSON report.
    InitAnalyze,
    /// User prompt to generate a `gba.md` document for a specific directory.
    InitGbaMd,
    /// User prompt to generate or update the GBA section of the agent's project instructions file.
    InitClaudeMd,
    /// System prompt for the planning architect role.
    PlanSystem,
    /// User prompt to generate the design specification document.
    PlanDesignSpec,
    /// User prompt to generate the verification plan document.
    PlanVerification,
    /// System prompt for the coding agent role.
    RunSystem,
    /// User prompt to implement a specific development phase.
    RunPhase,
    /// User prompt to review generated code and output a JSON issue list.
    RunReview,
    /// User prompt to execute the verification plan and output JSON results.
    RunVerify,
}

/// The system prompts are exactly the three `*System` identifiers.
pub open spec fn is_system_prompt(id: PromptId) -> bool {
    id == PromptId::InitSystem || id == PromptId::PlanSystem || id == PromptId::RunSystem
}

/// The template file name of each prompt.
pub open spec fn spec_template_name(id: PromptId) -> Seq<char> {
    match id {
        PromptId::InitSystem => "init_system.jinja"@,
        PromptId::InitAnalyze => "init_analyze.jinja"@,
        PromptId::InitGbaMd => "init_gba_md.jinja"@,
        PromptId::InitClaudeMd => "init_claude_md.jinja"@,
        PromptId::PlanSystem => "plan_system.jinja"@,
        PromptId::PlanDesignSpec => "plan_design_spec.jinja"@,
        PromptId::PlanVerification => "plan_verification.jinja"@,
        PromptId::RunSystem => "run_system.jinja"@,
        PromptId::RunPhase => "run_phase.jinja"@,
        PromptId::RunReview => "run_review.jinja"@,
        PromptId::RunVerify => "run_verify.jinja"@,
    }
}

impl PromptId {
    /// All prompt identifiers, in declaration order.
    pub fn all() -> (r: Vec<PromptId>)
        ensures
            r@ == seq![
                PromptId::InitSystem,
                PromptId::InitAnalyze,
                PromptId::InitGbaMd,
                PromptId::InitClaudeMd,
                PromptId::PlanSystem,
                PromptId::PlanDesignSpec,
                PromptId::PlanVerification,
                PromptId::RunSystem,
                PromptId::RunPhase,
                PromptId::RunReview,
                PromptId::RunVerify,
            ],
    {
        let r = vec![
            PromptId::InitSystem,
            PromptId::InitAnalyze,
            PromptId::InitGbaMd,
            PromptId::InitClaudeMd,
            PromptId::PlanSystem,
            PromptId::PlanDesignSpec,
            PromptId::PlanVerification,
            PromptId::RunSystem,
            PromptId::RunPhase,
            PromptId::RunReview,
            PromptId::RunVerify,
        ];
        assert(r@ =~= seq![
            PromptId::InitSystem,
            PromptId::InitAnalyze,
            PromptId::InitGbaMd,
            PromptId::InitClaudeMd,
            PromptId::PlanSystem,
            PromptId::PlanDesignSpec,
            PromptId::PlanVerification,
            PromptId::RunSystem,
            PromptId::RunPhase,
            PromptId::RunReview,
            PromptId::RunVerify,
        ]);
        r
    }

    /// Returns the role of this prompt.
    pub fn role(&self) -> (r: PromptRole)
        ensures
            r == (if is_system_prompt(*self) {
                PromptRole::System
            } else {
                PromptRole::User
            }),
    {
        match self {
            PromptId::InitSystem | PromptId::PlanSystem | PromptId::RunSystem => PromptRole::System,
            PromptId::InitAnalyze
            | PromptId::InitGbaMd
            | PromptId::InitClaudeMd
            | PromptId::PlanDesignSpec
            | PromptId::PlanVerification
            | PromptId::RunPhase
            | PromptId::RunReview
            | PromptId::RunVerify => PromptRole::User,
        }
    }

    /// Returns the template filename for this prompt ID.
    pub fn template_name(&self) -> (r: &'static str)
        ensures
            r@ == spec_template_name(*self),
    {
        match self {
            PromptId::InitSystem => "init_system.jinja",
            PromptId::InitAnalyze => "init_analyze.jinja",
            PromptId::InitGbaMd => "init_gba_md.jinja",
            PromptId::InitClaudeMd => "init_claude_md.jinja",
            PromptId::PlanSystem => "plan_system.jinja",
            PromptId::PlanDesignSpec => "plan_design_spec.jinja",
            PromptId::PlanVerification => "plan_verification.jinja",
            PromptId::RunSystem => "run_system.jinja",
            PromptId::RunPhase => "run_phase.jinja",
            PromptId::RunReview => "run_review.jinja",
            PromptId::RunVerify => "run_verify.jinja",
        }
    }
}

/// A key that tells the templates apart: the names of distinct prompts differ in
/// their length, their first character or their seventh character.
spec fn template_key(id: PromptId) -> (int, char, char) {
    let n = spec_template_name(id);
    (n.len() as int, n[0], n[6])
}

/// Distinct prompts use distinct template files, so no template serves two prompts.
pub proof fn law_template_names_distinct(a: PromptId, b: PromptId)
    requires
        a != b,
    ensures
        spec_template_name(a) != spec_template_name(b),
{
    reveal_strlit("init_system.jinja");
    reveal_strlit("init_analyze.jinja");
    reveal_strlit("init_gba_md.jinja");
    reveal_strlit("init_claude_md.jinja");
    reveal_strlit("plan_system.jinja");
    reveal_strlit("plan_design_spec.jinja");
    reveal_strlit("plan_verification.jinja");
    reveal_strlit("run_system.jinja");
    reveal_strlit("run_phase.jinja");
    reveal_strlit("run_review.jinja");
    reveal_strlit("run_verify.jinja");
    if spec_template_name(a) == spec_template_name(b) {
        assert(template_key(a) == template_key(b));
        assert(false);
    }
}

/// A prompt is a System prompt exactly when its template name ends in `_system.jinja`.
pub proof fn law_system_role_matches_template(id: PromptId)
    ensures
        is_system_prompt(id) <==> spec_template_name(id).len() >= 13 && spec_template_name(
            id,
        ).subrange(spec_template_name(id).len() - 13, spec_template_name(id).len() as int)
            == "_system.jinja"@,
{
    reveal_strlit("init_system.jinja");
    reveal_strlit("init_analyze.jinja");
    reveal_strlit("init_gba_md.jinja");
    reveal_strlit("init_claude_md.jinja");
    reveal_strlit("plan_system.jinja");
    reveal_strlit("plan_design_spec.jinja");
    reveal_strlit("plan_verification.jinja");
    reveal_strlit("run_system.jinja");
    reveal_strlit("run_phase.jinja");
    reveal_strlit("run_review.jinja");
    reveal_strlit("run_verify.jinja");
    reveal_strlit("_system.jinja");
    let n = spec_template_name(id);
    if is_system_prompt(id) {
        assert(n.subrange(n.len() - 13, n.len() as int) =~= "_system.jinja"@);
    } else if n.len() >= 13 {
        let tail = n.subrange(n.len() - 13, n.len() as int);
        assert(tail[1] != "_system.jinja"@[1] || tail[0] != "_system.jinja"@[0] || tail[2]
            != "_system.jinja"@[2]);
    }
}

} // verus!
