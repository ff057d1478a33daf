//! Decisions of the engine's workflows that do not depend on the agent: which
//! directories get documentation, the progress messages, the events that follow a
//! review or a verification, and the pull request.

use vstd::prelude::*;

use crate::context::GbaMdEntry;
use crate::preset::AgentPreset;
use crate::error::{spec_error_message, GbaCoreError};
use crate::event::GbaEvent;
use crate::reviewer::{issue_summaries, issue_summary, FixLoop, ReviewIssue, ReviewResult, MAX_FIX_ITERATIONS};
use crate::verification::VerificationResult;
use crate::text::{
    brackets_ordered, bracketed_slice, chars_of, line_at, lines, owned_strings, range_starts_with,
    spec_bracketed, starts_with, string_of_range, trim, trim_bounds, views,
};

verus! {

/// Information about a directory for `gba.md` generation.
#[derive(Debug, Clone, PartialEq, Eq)]
pub struct DirectoryInfo {
    /// Directory path relative to repository root.
    pub path: String,
    /// Analysis context for the directory.
    pub analysis: String,
    /// One-line summary of the directory's purpose.
    pub summary: String,
}

/// A directory known only by its path: no analysis, and the path as its summary.
pub open spec fn bare_directory(d: DirectoryInfo, path: Seq<char>) -> bool {
    d.path@ == path && d.analysis@.len() == 0 && d.summary@ == path
}

/// The directory a line of a text analysis lists: the trimmed rest of a trimmed line
/// that starts with `- ` or `* `, when not empty.
pub open spec fn listed_directory(line: Seq<char>) -> Option<Seq<char>> {
    let t = trim(line);
    if starts_with(t, seq!['-', ' ']) || starts_with(t, seq!['*', ' ']) {
        let p = trim(t.subrange(2, t.len() as int));
        if p.len() > 0 {
            Some(p)
        } else {
            None
        }
    } else {
        None
    }
}

/// The directories listed by a sequence of lines, in order.
pub open spec fn listed_directories(ls: Seq<Seq<char>>) -> Seq<Seq<char>>
    decreases ls.len(),
{
    if ls.len() == 0 {
        seq![]
    } else {
        let prev = listed_directories(ls.drop_last());
        match listed_directory(ls.last()) {
            Some(p) => prev.push(p),
            None => prev,
        }
    }
}

/// The directories that are documented when an analysis names none, in order of
/// preference (only those that exist are used).
pub open spec fn spec_common_directories() -> Seq<Seq<char>> {
    seq!["src"@, "crates"@, "apps"@, "lib"@]
}

/// The JSON array an analysis holds: the piece from its first `[` to its last `]`.
pub fn analysis_json(analysis: &str) -> (r: Option<String>)
    requires
        brackets_ordered(analysis@, '[', ']'),
    ensures
        match r {
            Some(x) => spec_bracketed(analysis@, '[', ']') == Some(x@),
            None => spec_bracketed(analysis@, '[', ']') is None,
        },
{
    bracketed_slice(analysis, '[', ']')
}

/// The directory known only by `path`.
fn bare(path: String) -> (r: DirectoryInfo)
    ensures
        bare_directory(r, path@),
{
    DirectoryInfo { summary: path.clone(), path, analysis: String::new() }
}

/// The directories a free-text analysis lists, one per `- path` or `* path` line.
pub fn directories_from_text(analysis: &str) -> (r: Vec<DirectoryInfo>)
    ensures
        r@.len() == listed_directories(lines(analysis@)).len(),
        forall|i: int|
            0 <= i < r@.len() ==> bare_directory(
                #[trigger] r@[i],
                listed_directories(lines(analysis@))[i],
            ),
{
    let v = chars_of(analysis);
    let n = v.len();
    let mut dirs: Vec<DirectoryInfo> = Vec::new();
    let mut pos: usize = 0;
    let ghost mut done: Seq<Seq<char>> = seq![];
    let dash = vec!['-', ' '];
    let star = vec!['*', ' '];
    assert(dash@ =~= seq!['-', ' ']);
    assert(star@ =~= seq!['*', ' ']);
    assert(v@.subrange(0, n as int) =~= v@);
    while pos < n
        invariant
            n == v@.len(),
            v@ == analysis@,
            pos <= n,
            dash@ == seq!['-', ' '],
            star@ == seq!['*', ' '],
            lines(v@) == done + lines(v@.subrange(pos as int, n as int)),
            dirs@.len() == listed_directories(done).len(),
            forall|i: int|
                0 <= i < dirs@.len() ==> bare_directory(
                    #[trigger] dirs@[i],
                    listed_directories(done)[i],
                ),
        decreases n - pos,
    {
        let (lo, hi, next) = line_at(&v, pos);
        let ghost line = v@.subrange(lo as int, hi as int);
        let ghost prev_done = done;
        proof {
            done = done.push(line);
            assert(done.drop_last() =~= prev_done);
            assert(lines(v@) =~= done + lines(v@.subrange(next as int, n as int)));
        }
        let (a, b) = trim_bounds(&v, lo, hi);
        let ghost t = v@.subrange(a as int, b as int);
        if range_starts_with(&v, a, b, &dash) || range_starts_with(&v, a, b, &star) {
            let (pa, pb) = trim_bounds(&v, a + 2, b);
            assert(t.subrange(2, t.len() as int) =~= v@.subrange(a + 2, b as int));
            if pa < pb {
                let d = bare(string_of_range(&v, pa, pb));
                let ghost old_dirs = dirs@;
                dirs.push(d);
                assert forall|i: int| 0 <= i < dirs@.len() implies bare_directory(
                    #[trigger] dirs@[i],
                    listed_directories(done)[i],
                ) by {
                    if i < old_dirs.len() {
                        assert(dirs@[i] == old_dirs[i]);
                    }
                }
            }
        }
        pos = next;
    }
    assert(v@.subrange(n as int, n as int).len() == 0);
    assert(lines(v@.subrange(n as int, n as int)) =~= Seq::<Seq<char>>::empty());
    assert(done + Seq::<Seq<char>>::empty() =~= done);
    dirs
}

/// The candidate directories documented when an analysis names none.
pub fn common_directories() -> (r: Vec<String>)
    ensures
        views(r@) == spec_common_directories(),
{
    let v = vec!["src", "crates", "apps", "lib"];
    let r = owned_strings(&v);
    assert(v@.map_values(|s: &str| s@) =~= spec_common_directories());
    r
}

/// The directories to document after analysing the repository: those of the JSON
/// report when the analysis parsed as one; else those its text lists; else the
/// common directories that exist.
pub fn parse_analysis_directories(
    analysis: &str,
    json_report: Option<Vec<DirectoryInfo>>,
    existing_common: &Vec<String>,
) -> (r: Vec<DirectoryInfo>)
    ensures
        match json_report {
            Some(d) => r == d,
            None => if listed_directories(lines(analysis@)).len() > 0 {
                r@.len() == listed_directories(lines(analysis@)).len() && forall|i: int|
                    0 <= i < r@.len() ==> bare_directory(
                        #[trigger] r@[i],
                        listed_directories(lines(analysis@))[i],
                    )
            } else {
                r@.len() == existing_common@.len() && forall|i: int|
                    0 <= i < r@.len() ==> bare_directory(#[trigger] r@[i], existing_common@[i]@)
            },
        },
{
    match json_report {
        Some(d) => d,
        None => {
            let dirs = directories_from_text(analysis);
            if dirs.len() > 0 {
                return dirs;
            }
            let mut r: Vec<DirectoryInfo> = Vec::new();
            let mut i: usize = 0;
            while i < existing_common.len()
                invariant
                    i <= existing_common@.len(),
                    r@.len() == i,
                    forall|k: int|
                        0 <= k < i ==> bare_directory(#[trigger] r@[k], existing_common@[k]@),
                decreases existing_common@.len() - i,
            {
                r.push(bare(existing_common[i].clone()));
                i = i + 1;
            }
            r
        },
    }
}

/// The entry for the `gba.md` written in a directory.
pub fn gba_md_entry(dir: &DirectoryInfo) -> (r: GbaMdEntry)
    ensures
        r.path@ == dir.path@ + "/gba.md"@,
        r.summary@ == dir.summary@,
{
    let mut p = dir.path.clone();
    p.append("/gba.md");
    GbaMdEntry::new(p.as_str(), dir.summary.as_str())
}

/// The title of the pull request for a feature.
pub fn pr_title(feature_id: &str) -> (r: String)
    ensures
        r@ == "feat: "@ + feature_id@ + " ("@ + feature_id@ + ")"@,
{
    let mut r = String::from_str("feat: ");
    r.append(feature_id);
    r.append(" (");
    r.append(feature_id);
    r.append(")");
    r
}

/// The body of the pull request for a feature: a summary, then its design.
pub fn pr_body(feature_id: &str, design_spec: &str) -> (r: String)
    ensures
        r@ == "## Summary\n\nImplementation of feature "@ + feature_id@ + ".\n\n## Design\n\n"@
            + design_spec@,
{
    let mut r = String::from_str("## Summary\n\nImplementation of feature ");
    r.append(feature_id);
    r.append(".\n\n## Design\n\n");
    r.append(design_spec);
    r
}

/// The message shown while documentation is written for a directory.
pub fn gba_md_progress(path: &str) -> (r: String)
    ensures
        r@ == "Generating gba.md for "@ + path@ + "..."@,
{
    let mut r = String::from_str("Generating gba.md for ");
    r.append(path);
    r.append("...");
    r
}

/// The events that follow a review: none when it passed; otherwise the issues found
/// (one summary each) and the start of the fixes.
pub fn review_events(result: &ReviewResult) -> (r: Vec<GbaEvent>)
    ensures
        result.passed ==> r@.len() == 0,
        !result.passed ==> r@.len() == 2 && r@[1] == GbaEvent::FixingIssues && (r@[0] matches GbaEvent::IssuesFound(v)
            && views(v@) == result.issues@.map_values(|i: ReviewIssue| issue_summary(i))),
{
    if result.passed {
        return Vec::new();
    }
    let found = GbaEvent::IssuesFound(issue_summaries(&result.issues));
    vec![found, GbaEvent::FixingIssues]
}

/// The message of the error shown when verification fails.
pub open spec fn verification_failed_message() -> Seq<char> {
    "Verification failed. Please fix the issues and run again."@
}

/// The events that follow a verification: its result, then an error when it failed.
/// Returns them with whether the run goes on (to the pull request).
pub fn verification_events(result: VerificationResult) -> (r: (Vec<GbaEvent>, bool))
    ensures
        r.1 == result.passed,
        r.0@.len() == (if result.passed { 1int } else { 2int }),
        r.0@[0] == (GbaEvent::VerificationResult { passed: result.passed, details: result.details }),
        !result.passed ==> (r.0@[1] matches GbaEvent::Error(m) && m@ == verification_failed_message()),
{
    let passed = result.passed;
    let mut events = vec![GbaEvent::VerificationResult { passed, details: result.details }];
    if !passed {
        events.push(
            GbaEvent::Error(
                String::from_str("Verification failed. Please fix the issues and run again."),
            ),
        );
    }
    (events, passed)
}

/// The event that reports the creation of the pull request: its URL, or the error.
pub fn pr_event(result: Result<String, GbaCoreError>) -> (r: GbaEvent)
    ensures
        match result {
            Ok(url) => r == (GbaEvent::PrCreated { url }),
            Err(e) => r matches GbaEvent::Error(m) && m@ == "Failed to create PR: "@
                + spec_error_message(e),
        },
{
    match result {
        Ok(url) => GbaEvent::PrCreated { url },
        Err(e) => {
            let mut m = String::from_str("Failed to create PR: ");
            m.append(e.message().as_str());
            GbaEvent::Error(m)
        },
    }
}

/// Where the execution of a feature stands: its phases one by one, then the review,
/// the fixes and the reviews that follow them, the verification, the pull request.
#[derive(Debug, Clone, Copy, PartialEq, Eq, Structural)]
pub enum RunStage {
    /// Run and commit phase `index` (0-based).
    Phase {
        /// The phase to run.
        index: usize,
    },
    /// Review the implementation.
    Review,
    /// Fix the issues that remain.
    Fix,
    /// Review again after a fix.
    Rereview,
    /// Run the verification plan.
    Verify,
    /// Create the pull request.
    PullRequest,
    /// Stop: issues remain after the allowed fixes.
    Unfixed,
    /// Finished.
    Done,
}

/// The preset of the agent session of each execution stage: phases and fixes code,
/// reviews only read, the verification reads and runs commands.
pub open spec fn run_stage_preset(s: RunStage) -> Option<AgentPreset> {
    match s {
        RunStage::Phase { .. } => Some(AgentPreset::FullCoding),
        RunStage::Fix => Some(AgentPreset::FullCoding),
        RunStage::Review => Some(AgentPreset::ReadOnly),
        RunStage::Rereview => Some(AgentPreset::ReadOnly),
        RunStage::Verify => Some(AgentPreset::Verify),
        _ => None,
    }
}

/// The values of a review issue: file, line, description and suggestion.
pub open spec fn issue_values(i: ReviewIssue) -> (Seq<char>, Option<usize>, Seq<char>, Option<Seq<char>>) {
    (i.file@, i.line, i.description@, match i.suggestion {
        Some(x) => Some(x@),
        None => None,
    })
}

/// What `format!("{:?}", issues)` writes for a list of review issues (the `Debug`
/// text that `derive` gives them).
pub uninterp spec fn spec_issues_debug(
    issues: Seq<(Seq<char>, Option<usize>, Seq<char>, Option<Seq<char>>)>,
) -> Seq<char>;

/// Writes a list of review issues with `format!("{:?}", ..)`. The contract claims only
/// that the text is the value named `spec_issues_debug` of the issues' values.
#[verifier::external_body]
fn issues_debug(issues: &Vec<ReviewIssue>) -> (r: String)
    ensures
        r@ == spec_issues_debug(issues@.map_values(|i: ReviewIssue| issue_values(i))),
{
    format!("{:?}", issues)
}

/// The message of the error that ends a run whose issues could not be fixed.
pub open spec fn unfixed_message(issues: Seq<ReviewIssue>) -> Seq<char> {
    "Could not fix all issues: "@ + spec_issues_debug(issues.map_values(|i: ReviewIssue| issue_values(i)))
}

/// The order of the execution of a feature. The caller does the work of each stage
/// and reports its outcome; the flow says what comes next.
#[derive(Debug)]
pub struct RunFlow {
    stage: RunStage,
    total: usize,
    fixes: FixLoop,
}

impl RunFlow {
    /// The fix loop is consistent, a phase stage names a phase, and a fix or a second
    /// review is only pending while a fix is due.
    #[verifier::type_invariant]
    spec fn inv(self) -> bool {
        &&& self.fixes.wf()
        &&& (self.stage matches RunStage::Phase { index } ==> index < self.total)
        &&& (self.stage == RunStage::Fix || self.stage == RunStage::Rereview) ==> self.fixes.spec_wants_fix()
    }

    /// The current stage.
    pub closed spec fn spec_stage(&self) -> RunStage {
        self.stage
    }

    /// The number of phases.
    pub closed spec fn spec_total(&self) -> nat {
        self.total as nat
    }

    /// The state of the fix loop.
    pub closed spec fn spec_fixes(&self) -> FixLoop {
        self.fixes
    }

    /// The flow of a feature with `total` phases: the first phase, or the review when
    /// there is none.
    pub fn new(total: usize) -> (r: Self)
        ensures
            r.spec_total() == total,
            r.spec_stage() == (if total > 0 {
                RunStage::Phase { index: 0 }
            } else {
                RunStage::Review
            }),
    {
        let stage = if total > 0 {
            RunStage::Phase { index: 0 }
        } else {
            RunStage::Review
        };
        RunFlow { stage, total, fixes: FixLoop::new(Vec::new()) }
    }

    /// The current stage.
    pub fn stage(&self) -> (r: RunStage)
        ensures
            r == self.spec_stage(),
            r matches RunStage::Phase { index } ==> index < self.spec_total(),
    {
        proof {
            use_type_invariant(self);
        }
        self.stage
    }

    /// The preset of the agent session of the current stage, if it runs one.
    pub fn preset(&self) -> (r: Option<AgentPreset>)
        ensures
            r == run_stage_preset(self.spec_stage()),
    {
        match self.stage {
            RunStage::Phase { .. } | RunStage::Fix => Some(AgentPreset::FullCoding),
            RunStage::Review | RunStage::Rereview => Some(AgentPreset::ReadOnly),
            RunStage::Verify => Some(AgentPreset::Verify),
            _ => None,
        }
    }

    /// The issues that remain to be fixed.
    pub fn issues(&self) -> (r: &Vec<ReviewIssue>)
        ensures
            r@ == self.spec_fixes().spec_issues(),
    {
        self.fixes.issues()
    }

    /// Phase `index` has been run and committed: the next phase follows, or the
    /// review after the last one.
    pub fn phase_committed(&mut self)
        requires
            old(self).spec_stage() is Phase,
        ensures
            final(self).spec_total() == old(self).spec_total(),
            final(self).spec_stage() == (if old(self).spec_stage()->index + 1 < old(
                self,
            ).spec_total() {
                RunStage::Phase { index: (old(self).spec_stage()->index + 1) as usize }
            } else {
                RunStage::Review
            }),
    {
        proof {
            use_type_invariant(&*self);
        }
        if let RunStage::Phase { index } = self.stage {
            self.stage = if index + 1 < self.total {
                RunStage::Phase { index: index + 1 }
            } else {
                RunStage::Review
            };
        }
    }

    /// A review has answered. After the first review: on success the verification
    /// follows; otherwise the issues are reported and the fixes begin (or, with no
    /// issue listed, the verification follows). After a fix: a passing review leads
    /// to the verification, and otherwise another fix follows while one is allowed;
    /// when none is, the run stops with an error event listing the issues that remain.
    /// Returns the events to show.
    pub fn review_done(&mut self, result: ReviewResult) -> (r: Vec<GbaEvent>)
        requires
            old(self).spec_stage() == RunStage::Review || old(self).spec_stage() == RunStage::Rereview,
        ensures
            final(self).spec_total() == old(self).spec_total(),
            old(self).spec_stage() == RunStage::Review ==> {
                &&& result.passed ==> r@.len() == 0 && final(self).spec_stage() == RunStage::Verify
                &&& !result.passed ==> {
                    &&& r@.len() == 2 && r@[1] == GbaEvent::FixingIssues
                    &&& (r@[0] matches GbaEvent::IssuesFound(v) && views(v@)
                        == result.issues@.map_values(|i: ReviewIssue| issue_summary(i)))
                    &&& final(self).spec_fixes().spec_iteration() == 0
                    &&& final(self).spec_fixes().spec_issues() == result.issues@
                    &&& final(self).spec_stage() == (if result.issues@.len() > 0 {
                        RunStage::Fix
                    } else {
                        RunStage::Verify
                    })
                }
            },
            old(self).spec_stage() == RunStage::Rereview ==> {
                &&& final(self).spec_stage() == RunStage::Unfixed ==> (r@.len() == 1 && (r@[0] matches GbaEvent::Error(m)
                    && m@ == unfixed_message(final(self).spec_fixes().spec_issues())))
                &&& final(self).spec_stage() != RunStage::Unfixed ==> r@.len() == 0
                &&& final(self).spec_fixes().spec_iteration() == old(
                    self,
                ).spec_fixes().spec_iteration() + 1
                &&& final(self).spec_stage() == (if result.passed {
                    RunStage::Verify
                } else if result.issues@.len() == 0 {
                    RunStage::Verify
                } else if final(self).spec_fixes().spec_iteration() < MAX_FIX_ITERATIONS {
                    RunStage::Fix
                } else {
                    RunStage::Unfixed
                })
                &&& !result.passed ==> final(self).spec_fixes().spec_issues() == result.issues@
            },
    {
        proof {
            use_type_invariant(&*self);
        }
        if self.stage == RunStage::Review {
            if result.passed {
                self.stage = RunStage::Verify;
                return Vec::new();
            }
            let events = review_events(&result);
            let fixes = FixLoop::new(result.issues);
            let stage = if fixes.wants_fix() {
                RunStage::Fix
            } else {
                RunStage::Verify
            };
            *self = RunFlow { stage, total: self.total, fixes };
            events
        } else {
            let total = self.total;
            self.stage = RunStage::Verify;
            let mut fixes = FixLoop::new(Vec::new());
            std::mem::swap(&mut fixes, &mut self.fixes);
            let verdict = fixes.record_review(result);
            let stage = if verdict.is_some() {
                RunStage::Verify
            } else if fixes.issues().len() == 0 {
                RunStage::Verify
            } else if fixes.wants_fix() {
                RunStage::Fix
            } else {
                RunStage::Unfixed
            };
            let events = if stage == RunStage::Unfixed {
                let mut m = String::from_str("Could not fix all issues: ");
                m.append(issues_debug(fixes.issues()).as_str());
                vec![GbaEvent::Error(m)]
            } else {
                Vec::new()
            };
            *self = RunFlow { stage, total, fixes };
            events
        }
    }

    /// A fix has run: the code is reviewed again.
    pub fn fix_done(&mut self)
        requires
            old(self).spec_stage() == RunStage::Fix,
        ensures
            final(self).spec_stage() == RunStage::Rereview,
            final(self).spec_total() == old(self).spec_total(),
            final(self).spec_fixes() == old(self).spec_fixes(),
    {
        proof {
            use_type_invariant(&*self);
        }
        self.stage = RunStage::Rereview;
    }

    /// The verification has answered: the pull request follows when it passed, and
    /// the run ends otherwise. Returns the events to show.
    pub fn verified(&mut self, result: VerificationResult) -> (r: Vec<GbaEvent>)
        requires
            old(self).spec_stage() == RunStage::Verify,
        ensures
            final(self).spec_stage() == (if result.passed {
                RunStage::PullRequest
            } else {
                RunStage::Done
            }),
            final(self).spec_total() == old(self).spec_total(),
            r@.len() == (if result.passed { 1int } else { 2int }),
            r@[0] == (GbaEvent::VerificationResult { passed: result.passed, details: result.details }),
            !result.passed ==> (r@[1] matches GbaEvent::Error(m) && m@ == verification_failed_message()),
    {
        proof {
            use_type_invariant(&*self);
        }
        let (events, go_on) = verification_events(result);
        self.stage = if go_on {
            RunStage::PullRequest
        } else {
            RunStage::Done
        };
        events
    }

    /// The pull request has been created, or its creation failed: the run ends.
    /// Returns the event to show.
    pub fn pr_done(&mut self, result: Result<String, GbaCoreError>) -> (r: GbaEvent)
        requires
            old(self).spec_stage() == RunStage::PullRequest,
        ensures
            final(self).spec_stage() == RunStage::Done,
            final(self).spec_total() == old(self).spec_total(),
            match result {
                Ok(url) => r == (GbaEvent::PrCreated { url }),
                Err(e) => r matches GbaEvent::Error(m) && m@ == "Failed to create PR: "@
                    + spec_error_message(e),
            },
    {
        proof {
            use_type_invariant(&*self);
        }
        self.stage = RunStage::Done;
        pr_event(result)
    }
}

/// Where the initialisation of a repository stands: the analysis, then one
/// `gba.md` per important directory, then the agent instructions.
#[derive(Debug, Clone, Copy, PartialEq, Eq, Structural)]
pub enum InitStage {
    /// Create the workspace directories (`.gba/`, its specs and trees).
    Prepare,
    /// Analyse the repository.
    Analyze,
    /// Write the `gba.md` of directory `index` (0-based).
    Document {
        /// The directory to document.
        index: usize,
    },
    /// Update the agent instructions with the documents written.
    Instructions,
    /// Finished.
    Done,
}

/// The preset of the agent session of each initialisation stage: the analysis only
/// reads; the documents and the instructions are written.
pub open spec fn init_stage_preset(s: InitStage) -> Option<AgentPreset> {
    match s {
        InitStage::Analyze => Some(AgentPreset::ReadOnly),
        InitStage::Document { .. } => Some(AgentPreset::WriteSpec),
        InitStage::Instructions => Some(AgentPreset::WriteSpec),
        _ => None,
    }
}

/// The message shown while the agent instructions are updated.
pub open spec fn instructions_message() -> Seq<char> {
    "Updating the agent instructions with GBA context..."@
}

/// The order of the initialisation of a repository. The caller does the work of
/// each stage; the flow says what comes next and gathers the documents written.
#[derive(Debug)]
pub struct InitFlow {
    stage: InitStage,
    dirs: Vec<DirectoryInfo>,
    entries: Vec<GbaMdEntry>,
}

/// The entries of the `gba.md` files of the first `n` directories.
pub open spec fn spec_entries(dirs: Seq<DirectoryInfo>, n: int) -> Seq<crate::context::GbaMdEntryView> {
    Seq::new(
        n as nat,
        |i: int|
            crate::context::GbaMdEntryView {
                path: dirs[i].path@ + "/gba.md"@,
                summary: dirs[i].summary@,
            },
    )
}

impl InitFlow {
    /// A document stage names a directory, and the entries are those of the
    /// directories documented so far.
    #[verifier::type_invariant]
    spec fn inv(self) -> bool {
        &&& (self.stage matches InitStage::Document { index } ==> index < self.dirs@.len()
            && crate::context::entry_views(self.entries@) == spec_entries(self.dirs@, index as int))
        &&& (self.stage == InitStage::Instructions || self.stage == InitStage::Done)
            ==> crate::context::entry_views(self.entries@) == spec_entries(
            self.dirs@,
            self.dirs@.len() as int,
        )
    }

    /// The current stage.
    pub closed spec fn spec_stage(&self) -> InitStage {
        self.stage
    }

    /// The directories to document.
    pub closed spec fn spec_dirs(&self) -> Seq<DirectoryInfo> {
        self.dirs@
    }

    /// The entries of the documents written so far.
    pub closed spec fn spec_entry_views(&self) -> Seq<crate::context::GbaMdEntryView> {
        crate::context::entry_views(self.entries@)
    }

    /// The flow of a new initialisation: the analysis comes first.
    pub fn new() -> (r: Self)
        ensures
            r.spec_stage() == InitStage::Prepare,
    {
        InitFlow { stage: InitStage::Prepare, dirs: Vec::new(), entries: Vec::new() }
    }

    /// The workspace directories exist: the analysis follows.
    pub fn workspace_ready(&mut self)
        requires
            old(self).spec_stage() == InitStage::Prepare,
        ensures
            final(self).spec_stage() == InitStage::Analyze,
    {
        proof {
            use_type_invariant(&*self);
        }
        self.stage = InitStage::Analyze;
    }

    /// The preset of the agent session of the current stage, if it runs one.
    pub fn preset(&self) -> (r: Option<AgentPreset>)
        ensures
            r == init_stage_preset(self.spec_stage()),
    {
        match self.stage {
            InitStage::Analyze => Some(AgentPreset::ReadOnly),
            InitStage::Document { .. } | InitStage::Instructions => Some(AgentPreset::WriteSpec),
            _ => None,
        }
    }

    /// The progress message shown as the current stage starts (or, once done, the
    /// final message); none while preparing.
    pub fn stage_message(&self) -> (r: Option<String>)
        ensures
            match self.spec_stage() {
                InitStage::Prepare => r is None,
                InitStage::Analyze => r matches Some(m) && m@ == "Analyzing repository structure..."@,
                InitStage::Document { index } => r matches Some(m) && m@ == "Generating gba.md for "@
                    + self.spec_dirs()[index as int].path@ + "..."@,
                InitStage::Instructions => r matches Some(m) && m@ == instructions_message(),
                InitStage::Done => r matches Some(m) && m@ == "Repository initialized successfully!"@,
            },
    {
        proof {
            use_type_invariant(self);
        }
        match self.stage {
            InitStage::Prepare => None,
            InitStage::Analyze => Some(String::from_str("Analyzing repository structure...")),
            InitStage::Document { index } => Some(gba_md_progress(self.dirs[index].path.as_str())),
            InitStage::Instructions => Some(
                String::from_str("Updating the agent instructions with GBA context..."),
            ),
            InitStage::Done => Some(String::from_str("Repository initialized successfully!")),
        }
    }

    /// The current stage.
    pub fn stage(&self) -> (r: InitStage)
        ensures
            r == self.spec_stage(),
            r matches InitStage::Document { index } ==> index < self.spec_dirs().len(),
    {
        proof {
            use_type_invariant(self);
        }
        self.stage
    }

    /// The analysis chose `dirs`: the first one is documented next, or the
    /// instructions when there is none.
    pub fn analyzed(&mut self, dirs: Vec<DirectoryInfo>)
        requires
            old(self).spec_stage() == InitStage::Analyze,
        ensures
            final(self).spec_dirs() == dirs@,
            final(self).spec_stage() == (if dirs@.len() > 0 {
                InitStage::Document { index: 0 }
            } else {
                InitStage::Instructions
            }),
            final(self).spec_entry_views().len() == 0,
    {
        let stage = if dirs.len() > 0 {
            InitStage::Document { index: 0 }
        } else {
            InitStage::Instructions
        };
        let entries: Vec<GbaMdEntry> = Vec::new();
        assert(crate::context::entry_views(entries@) =~= spec_entries(dirs@, 0));
        *self = InitFlow { stage, dirs, entries };
    }

    /// The directory of the current document stage.
    pub fn current_dir(&self) -> (r: &DirectoryInfo)
        requires
            self.spec_stage() is Document,
        ensures
            *r == self.spec_dirs()[self.spec_stage()->index as int],
    {
        proof {
            use_type_invariant(self);
        }
        let i = match self.stage {
            InitStage::Document { index } => index,
            _ => 0,
        };
        &self.dirs[i]
    }

    /// The current directory's `gba.md` has been written: the next directory follows,
    /// or the instructions after the last.
    pub fn documented(&mut self)
        requires
            old(self).spec_stage() is Document,
        ensures
            final(self).spec_dirs() == old(self).spec_dirs(),
            final(self).spec_stage() == (if old(self).spec_stage()->index + 1 < old(
                self,
            ).spec_dirs().len() {
                InitStage::Document { index: (old(self).spec_stage()->index + 1) as usize }
            } else {
                InitStage::Instructions
            }),
            final(self).spec_entry_views() == spec_entries(
                old(self).spec_dirs(),
                old(self).spec_stage()->index + 1,
            ),
    {
        proof {
            use_type_invariant(&*self);
        }
        let i = match self.stage {
            InitStage::Document { index } => index,
            _ => 0,
        };
        assert(i < self.dirs@.len());
        let e = gba_md_entry(&self.dirs[i]);
        let ghost old_entries = self.entries@;
        let ghost old_dirs = self.dirs@;
        assert(crate::context::entry_views(old_entries) == spec_entries(old_dirs, i as int));
        self.stage = InitStage::Prepare;
        let mut entries: Vec<GbaMdEntry> = Vec::new();
        std::mem::swap(&mut entries, &mut self.entries);
        let ghost before = entries@;
        entries.push(e);
        let mut dirs: Vec<DirectoryInfo> = Vec::new();
        std::mem::swap(&mut dirs, &mut self.dirs);
        assert(entries@ == before.push(e));
        assert(crate::context::entry_views(entries@) =~= spec_entries(dirs@, i + 1)) by {
            assert(before == old_entries);
            assert(crate::context::entry_views(before).len() == before.len());
            assert(before.len() == i);
            assert(dirs@ == old_dirs);
            assert forall|k: int| 0 <= k < i implies #[trigger] crate::context::entry_views(
                entries@,
            )[k] == spec_entries(dirs@, i + 1)[k] by {
                assert(crate::context::entry_views(entries@)[k] == crate::context::entry_views(
                    before,
                )[k]);
                assert(crate::context::entry_views(before)[k] == spec_entries(dirs@, i as int)[k]);
            }
            assert(crate::context::entry_views(entries@)[i as int] == e@);
        }
        let stage = if i < dirs.len() - 1 {
            InitStage::Document { index: i + 1 }
        } else {
            InitStage::Instructions
        };
        *self = InitFlow { stage, dirs, entries };
    }

    /// The entries of the documents written so far.
    pub fn entries(&self) -> (r: &Vec<GbaMdEntry>)
        ensures
            crate::context::entry_views(r@) == self.spec_entry_views(),
            self.spec_stage() == InitStage::Instructions ==> crate::context::entry_views(r@)
                == spec_entries(self.spec_dirs(), self.spec_dirs().len() as int),
    {
        proof {
            use_type_invariant(self);
        }
        &self.entries
    }

    /// The instructions have been updated: the initialisation is over.
    pub fn instructions_done(&mut self)
        requires
            old(self).spec_stage() == InitStage::Instructions,
        ensures
            final(self).spec_stage() == InitStage::Done,
            final(self).spec_dirs() == old(self).spec_dirs(),
            final(self).spec_entry_views() == old(self).spec_entry_views(),
    {
        proof {
            use_type_invariant(&*self);
        }
        self.stage = InitStage::Done;
    }
}

} // verus!
