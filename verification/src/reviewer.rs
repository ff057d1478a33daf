//! Code review: the issues a review reports, the prompt that asks for their fix,
//! and the bounded fix-and-review loop.

use vstd::prelude::*;

use crate::config::{GbaConfig, SessionConfig};
use crate::context::{empty_context, PromptContext, PromptContextView};
use crate::text::{decimal, join, push_decimal, push_str, string_of, views};

verus! {

/// Maximum number of fix iterations.
pub const MAX_FIX_ITERATIONS: usize = 3;

/// Issue found during code review.
#[derive(Debug, Clone, PartialEq, Eq)]
pub struct ReviewIssue {
    /// File path relative to repository root.
    pub file: String,
    /// Line number (1-based).
    pub line: Option<usize>,
    /// Issue description.
    pub description: String,
    /// Suggested fix.
    pub suggestion: Option<String>,
}

/// Result of a code review.
#[derive(Debug, Clone, PartialEq, Eq)]
pub struct ReviewResult {
    /// Whether the review passed (no issues found).
    pub passed: bool,
    /// List of issues found.
    pub issues: Vec<ReviewIssue>,
}

impl ReviewResult {
    /// The result of a review that reported `issues`: it passes exactly when there
    /// are none.
    pub fn from_issues(issues: Vec<ReviewIssue>) -> (r: Self)
        ensures
            r.passed == (issues@.len() == 0),
            r.issues == issues,
    {
        let passed = issues.len() == 0;
        ReviewResult { passed, issues }
    }
}

/// `file: description`, the one-line summary of an issue.
pub open spec fn issue_summary(i: ReviewIssue) -> Seq<char> {
    i.file@ + ": "@ + i.description@
}

/// `- file:line: description` (`:line` only when known), the item of a fix request.
pub open spec fn fix_item(i: ReviewIssue) -> Seq<char> {
    "- "@ + i.file@ + match i.line {
        Some(l) => seq![':'] + decimal(l as nat),
        None => seq![],
    } + ": "@ + i.description@
}

/// The request to fix a list of issues.
pub open spec fn spec_fix_prompt(issues: Seq<ReviewIssue>) -> Seq<char> {
    "Please fix the following issues found during code review:\n\n"@ + join(
        issues.map_values(|i: ReviewIssue| fix_item(i)),
        "\n"@,
    )
}

/// The one-line summaries of issues.
pub fn issue_summaries(issues: &Vec<ReviewIssue>) -> (r: Vec<String>)
    ensures
        views(r@) == issues@.map_values(|i: ReviewIssue| issue_summary(i)),
{
    let mut r: Vec<String> = Vec::new();
    let mut k: usize = 0;
    while k < issues.len()
        invariant
            k <= issues@.len(),
            views(r@) == issues@.subrange(0, k as int).map_values(
                |i: ReviewIssue| issue_summary(i),
            ),
        decreases issues@.len() - k,
    {
        let mut s = issues[k].file.clone();
        s.append(": ");
        s.append(issues[k].description.as_str());
        let ghost old_r = r@;
        let ghost sv = s@;
        r.push(s);
        assert(views(r@) =~= views(old_r).push(sv));
        assert(issues@.subrange(0, k + 1).map_values(|i: ReviewIssue| issue_summary(i))
            =~= issues@.subrange(0, k as int).map_values(|i: ReviewIssue| issue_summary(i)).push(
            issue_summary(issues@[k as int]),
        ));
        k = k + 1;
    }
    assert(issues@.subrange(0, issues@.len() as int) =~= issues@);
    r
}

/// The fix-request item of one issue.
fn fix_item_line(i: &ReviewIssue) -> (r: String)
    ensures
        r@ == fix_item(*i),
{
    let mut v: Vec<char> = Vec::new();
    push_str(&mut v, "- ");
    push_str(&mut v, i.file.as_str());
    match i.line {
        Some(l) => {
            v.push(':');
            push_decimal(&mut v, l);
        },
        None => {},
    }
    push_str(&mut v, ": ");
    push_str(&mut v, i.description.as_str());
    assert(v@ =~= fix_item(*i));
    string_of(&v)
}

/// The request that asks the agent to fix `issues`.
pub fn fix_prompt(issues: &Vec<ReviewIssue>) -> (r: String)
    ensures
        r@ == spec_fix_prompt(issues@),
{
    let ghost items = issues@.map_values(|i: ReviewIssue| fix_item(i));
    let mut body = String::new();
    let mut k: usize = 0;
    while k < issues.len()
        invariant
            k <= issues@.len(),
            items == issues@.map_values(|i: ReviewIssue| fix_item(i)),
            body@ == join(items.subrange(0, k as int), "\n"@),
        decreases issues@.len() - k,
    {
        proof {
            let p = items.subrange(0, k + 1);
            assert(p.drop_last() =~= items.subrange(0, k as int));
            assert(p.last() == fix_item(issues@[k as int]));
            if k == 0 {
                assert(items.subrange(0, 0) =~= Seq::<Seq<char>>::empty());
            }
        }
        if k > 0 {
            body.append("\n");
        }
        body.append(fix_item_line(&issues[k]).as_str());
        k = k + 1;
    }
    assert(items.subrange(0, items.len() as int) =~= items);
    let mut r = String::from_str("Please fix the following issues found during code review:\n\n");
    r.append(body.as_str());
    r
}

/// The state of the fix-and-review loop: how many fixes have run, and the issues
/// that remain.
#[derive(Debug, Clone)]
pub struct FixLoop {
    iteration: usize,
    issues: Vec<ReviewIssue>,
}

impl FixLoop {
    /// Number of fixes run so far.
    pub closed spec fn spec_iteration(&self) -> nat {
        self.iteration as nat
    }

    /// The issues that remain.
    pub closed spec fn spec_issues(&self) -> Seq<ReviewIssue> {
        self.issues@
    }

    /// The loop never runs more fixes than allowed.
    pub open spec fn wf(&self) -> bool {
        self.spec_iteration() <= MAX_FIX_ITERATIONS
    }

    /// Another fix is due: issues remain and the allowance is not used up.
    pub open spec fn spec_wants_fix(&self) -> bool {
        self.spec_issues().len() > 0 && self.spec_iteration() < MAX_FIX_ITERATIONS
    }

    /// Starts the loop on the issues of a first review.
    pub fn new(issues: Vec<ReviewIssue>) -> (r: Self)
        ensures
            r.wf(),
            r.spec_iteration() == 0,
            r.spec_issues() == issues@,
    {
        FixLoop { iteration: 0, issues }
    }

    /// Number of fixes run so far.
    pub fn iteration(&self) -> (r: usize)
        ensures
            r == self.spec_iteration(),
    {
        self.iteration
    }

    /// The issues that remain.
    pub fn issues(&self) -> (r: &Vec<ReviewIssue>)
        ensures
            r@ == self.spec_issues(),
    {
        &self.issues
    }

    /// Whether another fix is due.
    pub fn wants_fix(&self) -> (r: bool)
        ensures
            r == self.spec_wants_fix(),
    {
        self.issues.len() > 0 && self.iteration < MAX_FIX_ITERATIONS
    }

    /// Records the review that followed a fix. Returns the result when that review
    /// passed (the loop is over); otherwise its issues become the remaining ones.
    pub fn record_review(&mut self, result: ReviewResult) -> (r: Option<ReviewResult>)
        requires
            old(self).wf(),
            old(self).spec_wants_fix(),
        ensures
            final(self).wf(),
            final(self).spec_iteration() == old(self).spec_iteration() + 1,
            result.passed ==> r == Some(result) && final(self).spec_issues() == old(
                self,
            ).spec_issues(),
            !result.passed ==> r is None && final(self).spec_issues() == result.issues@,
    {
        self.iteration = self.iteration + 1;
        if result.passed {
            Some(result)
        } else {
            self.issues = result.issues;
            None
        }
    }

    /// The result when the loop stops without a passing review: it passes exactly
    /// when no issue remains.
    pub fn outcome(self) -> (r: ReviewResult)
        ensures
            r.passed == (self.spec_issues().len() == 0),
            r.issues@ == self.spec_issues(),
    {
        ReviewResult::from_issues(self.issues)
    }
}

/// Reviews the code of a feature: the prompt contexts of the review and of the fixes,
/// and the sessions they run with. The sessions themselves are run by the caller.
#[derive(Debug, Clone)]
pub struct Reviewer {
    working_dir: String,
    feature_id: String,
    review_session: SessionConfig,
    fix_session: SessionConfig,
}

impl Reviewer {
    /// The working directory.
    pub closed spec fn spec_working_dir(&self) -> Seq<char> {
        self.working_dir@
    }

    /// The reviewed feature.
    pub closed spec fn spec_feature_id(&self) -> Seq<char> {
        self.feature_id@
    }

    /// The session configuration of reviews.
    pub closed spec fn spec_review_session(&self) -> SessionConfig {
        self.review_session
    }

    /// The session configuration of fixes.
    pub closed spec fn spec_fix_session(&self) -> SessionConfig {
        self.fix_session
    }

    /// Creates the review of `feature_id` in the working directory of `config`. Reviews use
    /// the review session settings; fixes use those of the implementation phases.
    pub fn new(config: &GbaConfig, feature_id: &str) -> (r: Self)
        ensures
            r.spec_working_dir() == config.working_dir@,
            r.spec_feature_id() == feature_id@,
            r.spec_review_session() == config.sessions.run_review,
            r.spec_fix_session() == config.sessions.run_phase,
    {
        Reviewer {
            working_dir: config.working_dir.clone(),
            feature_id: String::from_str(feature_id),
            review_session: config.sessions.run_review.copied(),
            fix_session: config.sessions.run_phase.copied(),
        }
    }

    /// The reviewed feature.
    pub fn feature_id(&self) -> (r: &str)
        ensures
            r@ == self.spec_feature_id(),
    {
        self.feature_id.as_str()
    }

    /// The session configuration of reviews.
    pub fn review_session(&self) -> (r: &SessionConfig)
        ensures
            *r == self.spec_review_session(),
    {
        &self.review_session
    }

    /// The session configuration of fixes.
    pub fn fix_session(&self) -> (r: &SessionConfig)
        ensures
            *r == self.spec_fix_session(),
    {
        &self.fix_session
    }

    /// The context of the review prompts: the working directory and the feature.
    pub fn review_context(&self) -> (r: PromptContext)
        ensures
            r@ == (PromptContextView {
                working_dir: self.spec_working_dir(),
                feature_slug: self.spec_feature_id(),
                ..empty_context()
            }),
    {
        PromptContext::new().with_working_dir(self.working_dir.as_str()).with_feature_slug(
            self.feature_id.as_str(),
        )
    }

    /// The context of the prompts that fix `issues`: the review context with their
    /// one-line summaries.
    pub fn fix_context(&self, issues: &Vec<ReviewIssue>) -> (r: PromptContext)
        ensures
            r@ == (PromptContextView {
                working_dir: self.spec_working_dir(),
                feature_slug: self.spec_feature_id(),
                review_issues: issues@.map_values(|i: ReviewIssue| issue_summary(i)),
                ..empty_context()
            }),
    {
        self.review_context().with_review_issues(issue_summaries(issues))
    }

    /// The result of a review, given the issues parsed from its response (`None` when
    /// the response held no JSON array or the array did not parse): no parsed issues
    /// count as none.
    pub fn parse_review_response(parsed: Option<Vec<ReviewIssue>>) -> (r: ReviewResult)
        ensures
            match parsed {
                Some(v) => r.issues == v && r.passed == (v@.len() == 0),
                None => r.issues@.len() == 0 && r.passed,
            },
    {
        match parsed {
            Some(v) => ReviewResult::from_issues(v),
            None => ReviewResult::from_issues(Vec::new()),
        }
    }
}

/// The loop stops: each recorded review uses up one of the allowed fixes, and once
/// `MAX_FIX_ITERATIONS` fixes have run no further fix is due.
pub proof fn law_fix_loop_is_bounded(l: FixLoop)
    requires
        l.wf(),
    ensures
        l.spec_iteration() == MAX_FIX_ITERATIONS ==> !l.spec_wants_fix(),
        l.spec_wants_fix() ==> MAX_FIX_ITERATIONS - l.spec_iteration() > 0,
{
}

/// A loop whose issues are gone wants no more fixes.
pub proof fn law_no_issues_no_fix(l: FixLoop)
    ensures
        l.spec_issues().len() == 0 ==> !l.spec_wants_fix(),
{
}

} // verus!

verus! {

/// The JSON array a review response holds: the piece from its first `[` to its last
/// `]`, if both occur.
pub fn review_json(response: &str) -> (r: Option<String>)
    requires
        crate::text::brackets_ordered(response@, '[', ']'),
    ensures
        match r {
            Some(x) => crate::text::spec_bracketed(response@, '[', ']') == Some(x@),
            None => crate::text::spec_bracketed(response@, '[', ']') is None,
        },
{
    crate::text::bracketed_slice(response, '[', ']')
}

} // verus!
