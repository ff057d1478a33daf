//! Git and GitHub CLI operations, as the commands to run and the reading of their
//! outputs. Running the commands is left to the caller.

use vstd::prelude::*;

use crate::error::GbaCoreError;
use crate::text::{owned_strings, trim, trim_string, views};

verus! {

/// A command to run: a program, its arguments and the directory to run it in.
#[derive(Debug, Clone, PartialEq, Eq)]
pub struct ProcessRequest {
    /// Program to run.
    pub program: String,
    /// Its arguments.
    pub args: Vec<String>,
    /// Directory to run it in.
    pub current_dir: String,
}

/// What a finished command produced (its output decoded as UTF-8, lossily).
#[derive(Debug, Clone, PartialEq, Eq)]
pub struct ProcessOutput {
    /// Whether the command exited successfully.
    pub success: bool,
    /// Its standard output.
    pub stdout: String,
    /// Its standard error.
    pub stderr: String,
}

/// Git operations handler.
#[derive(Debug, Clone, PartialEq, Eq)]
pub struct GitOps {
    /// Working directory for git operations.
    working_dir: String,
}

/// The default pre-commit hooks: build, format, lint and security check.
pub open spec fn spec_default_hooks() -> Seq<Seq<char>> {
    seq![
        "cargo build"@,
        "cargo +nightly fmt"@,
        "cargo clippy -- -D warnings"@,
        "cargo audit"@,
    ]
}

/// The request that runs `program` with `args` in `dir`.
pub open spec fn is_request(
    r: ProcessRequest,
    program: Seq<char>,
    args: Seq<Seq<char>>,
    dir: Seq<char>,
) -> bool {
    r.program@ == program && views(r.args@) == args && r.current_dir@ == dir
}

/// The error for a command that could not be started or that failed: `None` when it
/// succeeded.
pub open spec fn command_error(
    out: Result<ProcessOutput, String>,
    spawn_prefix: Seq<char>,
    fail_prefix: Seq<char>,
) -> Option<Seq<char>> {
    match out {
        Err(e) => Some(spawn_prefix + e@),
        Ok(o) => if o.success {
            None
        } else {
            Some(fail_prefix + trim(o.stderr@))
        },
    }
}

/// The error of a pre-commit hook: it could not be started, or it exited with a
/// failure status (whatever it printed); `None` when it succeeded.
pub open spec fn hook_error(hook: Seq<char>, out: Result<ProcessOutput, String>) -> Option<
    Seq<char>,
> {
    match out {
        Err(e) => Some("Failed to run hook '"@ + hook + "': "@ + e@),
        Ok(o) => if !o.success {
            Some(
                "Pre-commit hook '"@ + hook + "' failed:\nstdout: "@ + trim(o.stdout@)
                    + "\nstderr: "@ + trim(o.stderr@),
            )
        } else {
            None
        },
    }
}

/// `r` is `Ok` exactly when `err` is `None`, and otherwise a run error with its text.
pub open spec fn run_result_matches<T>(r: Result<T, GbaCoreError>, err: Option<Seq<char>>) -> bool {
    match err {
        None => r is Ok,
        Some(m) => r matches Err(GbaCoreError::RunError(x)) && x@ == m,
    }
}

/// Builds a run error from the concatenation of two pieces.
fn run_error(prefix: &str, detail: &str) -> (r: GbaCoreError)
    ensures
        r matches GbaCoreError::RunError(x) && x@ == prefix@ + detail@,
{
    let mut m = String::from_str(prefix);
    m.append(detail);
    GbaCoreError::RunError(m)
}

/// Checks the output of a command.
fn check_output(out: Result<ProcessOutput, String>, spawn_prefix: &str, fail_prefix: &str) -> (r:
    Result<ProcessOutput, GbaCoreError>)
    ensures
        run_result_matches(r, command_error(out, spawn_prefix@, fail_prefix@)),
        r matches Ok(o) ==> out == Ok::<ProcessOutput, String>(o),
{
    match out {
        Err(e) => Err(run_error(spawn_prefix, e.as_str())),
        Ok(o) => {
            if !o.success {
                let t = trim_string(o.stderr.as_str());
                return Err(run_error(fail_prefix, t.as_str()));
            }
            Ok(o)
        },
    }
}

impl GitOps {
    /// The working directory.
    pub closed spec fn spec_working_dir(&self) -> Seq<char> {
        self.working_dir@
    }

    /// Creates a new `GitOps` instance for the given working directory.
    pub fn new(working_dir: &str) -> (r: Self)
        ensures
            r.spec_working_dir() == working_dir@,
    {
        GitOps { working_dir: String::from_str(working_dir) }
    }

    /// The working directory.
    pub fn working_dir(&self) -> (r: &str)
        ensures
            r@ == self.spec_working_dir(),
    {
        self.working_dir.as_str()
    }

    /// The default pre-commit hook commands.
    pub fn default_hooks() -> (r: Vec<String>)
        ensures
            views(r@) == spec_default_hooks(),
    {
        let v = vec!["cargo build", "cargo +nightly fmt", "cargo clippy -- -D warnings", "cargo audit"];
        let r = owned_strings(&v);
        assert(v@.map_values(|s: &str| s@) =~= spec_default_hooks());
        r
    }

    /// The request that runs `program` with `args` in the working directory.
    fn request(&self, program: &str, args: Vec<String>) -> (r: ProcessRequest)
        ensures
            is_request(r, program@, views(args@), self.spec_working_dir()),
    {
        ProcessRequest {
            program: String::from_str(program),
            args,
            current_dir: self.working_dir.clone(),
        }
    }

    /// The request that runs a git command.
    pub fn git_request(&self, args: Vec<String>) -> (r: ProcessRequest)
        ensures
            is_request(r, "git"@, views(args@), self.spec_working_dir()),
    {
        self.request("git", args)
    }

    /// The request that runs a GitHub CLI command.
    pub fn gh_request(&self, args: Vec<String>) -> (r: ProcessRequest)
        ensures
            is_request(r, "gh"@, views(args@), self.spec_working_dir()),
    {
        self.request("gh", args)
    }

    /// The request that runs a pre-commit hook through the shell.
    pub fn hook_request(&self, hook: &str) -> (r: ProcessRequest)
        ensures
            is_request(r, "sh"@, seq!["-c"@, hook@], self.spec_working_dir()),
    {
        let v = vec!["-c", hook];
        let args = owned_strings(&v);
        assert(v@.map_values(|s: &str| s@) =~= seq!["-c"@, hook@]);
        self.request("sh", args)
    }

    /// Checks the output of a git command: a command that could not start or that
    /// failed is a run error.
    pub fn check_git_output(out: Result<ProcessOutput, String>) -> (r: Result<
        ProcessOutput,
        GbaCoreError,
    >)
        ensures
            run_result_matches(
                r,
                command_error(out, "Failed to run git command: "@, "Git command failed: "@),
            ),
            r matches Ok(o) ==> out == Ok::<ProcessOutput, String>(o),
    {
        check_output(out, "Failed to run git command: ", "Git command failed: ")
    }

    /// Checks the output of a GitHub CLI command.
    pub fn check_gh_output(out: Result<ProcessOutput, String>) -> (r: Result<
        ProcessOutput,
        GbaCoreError,
    >)
        ensures
            run_result_matches(
                r,
                command_error(out, "Failed to run gh command: "@, "gh command failed: "@),
            ),
            r matches Ok(o) ==> out == Ok::<ProcessOutput, String>(o),
    {
        check_output(out, "Failed to run gh command: ", "gh command failed: ")
    }

    /// The outcome of a pre-commit hook run.
    pub fn hook_outcome(hook: &str, out: Result<ProcessOutput, String>) -> (r: Result<
        (),
        GbaCoreError,
    >)
        ensures
            run_result_matches(r, hook_error(hook@, out)),
    {
        match out {
            Err(e) => {
                let mut m = String::from_str("Failed to run hook '");
                m.append(hook);
                m.append("': ");
                m.append(e.as_str());
                Err(GbaCoreError::RunError(m))
            },
            Ok(o) => {
                if !o.success {
                    let mut m = String::from_str("Pre-commit hook '");
                    m.append(hook);
                    m.append("' failed:\nstdout: ");
                    m.append(trim_string(o.stdout.as_str()).as_str());
                    m.append("\nstderr: ");
                    m.append(trim_string(o.stderr.as_str()).as_str());
                    return Err(GbaCoreError::RunError(m));
                }
                Ok(())
            },
        }
    }

    /// The request that creates a pull request with the given title and body.
    pub fn create_pr(&self, title: &str, body: &str) -> (r: ProcessRequest)
        ensures
            is_request(
                r,
                "gh"@,
                seq!["pr"@, "create"@, "--title"@, title@, "--body"@, body@],
                self.spec_working_dir(),
            ),
    {
        let v = vec!["pr", "create", "--title", title, "--body", body];
        let args = owned_strings(&v);
        assert(v@.map_values(|s: &str| s@) =~= seq![
            "pr"@,
            "create"@,
            "--title"@,
            title@,
            "--body"@,
            body@,
        ]);
        self.gh_request(args)
    }

    /// The URL of the created pull request: the trimmed output of the command.
    pub fn pr_url(out: Result<ProcessOutput, String>) -> (r: Result<String, GbaCoreError>)
        ensures
            run_result_matches(
                r,
                command_error(out, "Failed to run gh command: "@, "gh command failed: "@),
            ),
            r matches Ok(u) ==> out matches Ok(o) && u@ == trim(o.stdout@),
    {
        let o = Self::check_gh_output(out)?;
        Ok(trim_string(o.stdout.as_str()))
    }

    /// The request that asks for the current branch name.
    pub fn current_branch(&self) -> (r: ProcessRequest)
        ensures
            is_request(r, "git"@, seq!["branch"@, "--show-current"@], self.spec_working_dir()),
    {
        let v = vec!["branch", "--show-current"];
        let args = owned_strings(&v);
        assert(v@.map_values(|s: &str| s@) =~= seq!["branch"@, "--show-current"@]);
        self.git_request(args)
    }

    /// The branch name: the trimmed output of the command.
    pub fn branch_name(out: Result<ProcessOutput, String>) -> (r: Result<String, GbaCoreError>)
        ensures
            run_result_matches(
                r,
                command_error(out, "Failed to run git command: "@, "Git command failed: "@),
            ),
            r matches Ok(b) ==> out matches Ok(o) && b@ == trim(o.stdout@),
    {
        let o = Self::check_git_output(out)?;
        Ok(trim_string(o.stdout.as_str()))
    }

    /// The request that lists uncommitted changes.
    pub fn has_changes(&self) -> (r: ProcessRequest)
        ensures
            is_request(r, "git"@, seq!["status"@, "--porcelain"@], self.spec_working_dir()),
    {
        let v = vec!["status", "--porcelain"];
        let args = owned_strings(&v);
        assert(v@.map_values(|s: &str| s@) =~= seq!["status"@, "--porcelain"@]);
        self.git_request(args)
    }

    /// Whether there are uncommitted changes: the status listing is not empty.
    pub fn changes_present(out: Result<ProcessOutput, String>) -> (r: Result<bool, GbaCoreError>)
        ensures
            run_result_matches(
                r,
                command_error(out, "Failed to run git command: "@, "Git command failed: "@),
            ),
            r matches Ok(b) ==> out matches Ok(o) && b == (o.stdout@.len() > 0),
    {
        let o = Self::check_git_output(out)?;
        Ok(!o.stdout.as_str().is_empty())
    }

    /// Starts committing all changes with `message`, after the default pre-commit
    /// hooks.
    pub fn commit_phase(&self, message: &str) -> (r: CommitProgress)
        ensures
            r.spec_hooks() == spec_default_hooks(),
            r.spec_message() == message@,
            r.spec_dir() == self.spec_working_dir(),
            r.spec_step() == 0,
            r.wf(),
    {
        self.commit_phase_with_hooks(message, Vec::new())
    }

    /// Starts committing all changes with `message`, after the given hook commands
    /// (the default hooks when none are given).
    pub fn commit_phase_with_hooks(&self, message: &str, hooks: Vec<String>) -> (r: CommitProgress)
        ensures
            r.spec_hooks() == (if hooks@.len() == 0 {
                spec_default_hooks()
            } else {
                views(hooks@)
            }),
            r.spec_message() == message@,
            r.spec_dir() == self.spec_working_dir(),
            r.spec_step() == 0,
            r.wf(),
    {
        let hooks = if hooks.len() == 0 {
            Self::default_hooks()
        } else {
            hooks
        };
        assert(views(hooks@).len() == hooks@.len());
        CommitProgress {
            git: GitOps { working_dir: self.working_dir.clone() },
            hooks,
            message: String::from_str(message),
            next_hook: 0,
            phase: CommitPhase::Hooks,
        }
    }
}

/// Progress of a commit: the hooks run one by one, then all changes are staged,
/// then the commit is created without running git's own hooks. Each step must
/// succeed before the next runs.
#[derive(Debug, Clone)]
pub struct CommitProgress {
    git: GitOps,
    hooks: Vec<String>,
    message: String,
    next_hook: usize,
    phase: CommitPhase,
}

/// Which part of a commit comes next.
#[derive(Debug, Clone, Copy, PartialEq, Eq, Structural)]
pub enum CommitPhase {
    /// Running the pre-commit hooks.
    Hooks,
    /// Staging all changes.
    Stage,
    /// Creating the commit.
    Commit,
    /// Finished.
    Done,
}

/// The request of step `step` of a commit: hook `step`, then `git add -A`, then
/// `git commit -m message --no-verify`; `None` after the commit.
pub open spec fn commit_step_request(
    hooks: Seq<Seq<char>>,
    message: Seq<char>,
    step: nat,
) -> Option<(Seq<char>, Seq<Seq<char>>)> {
    if step < hooks.len() {
        Some(("sh"@, seq!["-c"@, hooks[step as int]]))
    } else if step == hooks.len() {
        Some(("git"@, seq!["add"@, "-A"@]))
    } else if step == hooks.len() + 1 {
        Some(("git"@, seq!["commit"@, "-m"@, message, "--no-verify"@]))
    } else {
        None
    }
}

/// The error that ends step `step` of a commit with output `out`, if any.
pub open spec fn commit_step_error(
    hooks: Seq<Seq<char>>,
    step: nat,
    out: Result<ProcessOutput, String>,
) -> Option<Seq<char>> {
    if step < hooks.len() {
        hook_error(hooks[step as int], out)
    } else {
        command_error(out, "Failed to run git command: "@, "Git command failed: "@)
    }
}

impl CommitProgress {
    /// The hook commands.
    pub closed spec fn spec_hooks(&self) -> Seq<Seq<char>> {
        views(self.hooks@)
    }

    /// The commit message.
    pub closed spec fn spec_message(&self) -> Seq<char> {
        self.message@
    }

    /// The working directory.
    pub closed spec fn spec_dir(&self) -> Seq<char> {
        self.git.spec_working_dir()
    }

    /// The number of steps that have succeeded.
    pub closed spec fn spec_step(&self) -> nat {
        match self.phase {
            CommitPhase::Hooks => self.next_hook as nat,
            CommitPhase::Stage => self.hooks@.len(),
            CommitPhase::Commit => self.hooks@.len() + 1,
            CommitPhase::Done => self.hooks@.len() + 2,
        }
    }

    /// The progress is consistent: while hooks run, the next one exists.
    pub closed spec fn wf(&self) -> bool {
        self.phase == CommitPhase::Hooks ==> self.next_hook < self.hooks@.len()
    }

    /// Whether every step has run.
    pub open spec fn spec_done(&self) -> bool {
        self.spec_step() > self.spec_hooks().len() + 1
    }

    /// The command of the current step, or `None` when the commit is done.
    pub fn next_request(&self) -> (r: Option<ProcessRequest>)
        requires
            self.wf(),
        ensures
            match commit_step_request(self.spec_hooks(), self.spec_message(), self.spec_step()) {
                Some((p, a)) => r matches Some(q) && is_request(q, p, a, self.spec_dir()),
                None => r is None,
            },
    {
        match self.phase {
            CommitPhase::Hooks => {
                assert(views(self.hooks@)[self.next_hook as int] == self.hooks@[self.next_hook as int]@);
                Some(self.git.hook_request(self.hooks[self.next_hook].as_str()))
            },
            CommitPhase::Stage => {
                let v = vec!["add", "-A"];
                let args = owned_strings(&v);
                assert(v@.map_values(|s: &str| s@) =~= seq!["add"@, "-A"@]);
                Some(self.git.git_request(args))
            },
            CommitPhase::Commit => {
                let v = vec!["commit", "-m", self.message.as_str(), "--no-verify"];
                let args = owned_strings(&v);
                assert(v@.map_values(|s: &str| s@) =~= seq![
                    "commit"@,
                    "-m"@,
                    self.message@,
                    "--no-verify"@,
                ]);
                Some(self.git.git_request(args))
            },
            CommitPhase::Done => None,
        }
    }

    /// Records the output of the current step's command. Returns the outcome of the
    /// commit when it is over: the first error, or `Ok` once the commit itself has
    /// succeeded; `None` while steps remain. After an error nothing more is run: no
    /// later hook, no staging and no commit.
    pub fn record(&mut self, out: Result<ProcessOutput, String>) -> (r: Option<
        Result<(), GbaCoreError>,
    >)
        requires
            old(self).wf(),
            !old(self).spec_done(),
        ensures
            final(self).wf(),
            final(self).spec_hooks() == old(self).spec_hooks(),
            final(self).spec_message() == old(self).spec_message(),
            final(self).spec_dir() == old(self).spec_dir(),
            match commit_step_error(old(self).spec_hooks(), old(self).spec_step(), out) {
                Some(m) => final(self).spec_done() && (r matches Some(Err(GbaCoreError::RunError(x)))
                    && x@ == m),
                None => final(self).spec_step() == old(self).spec_step() + 1 && if old(
                    self,
                ).spec_step() == old(self).spec_hooks().len() + 1 {
                    r == Some(Ok::<(), GbaCoreError>(()))
                } else {
                    r is None
                },
            },
    {
        match self.phase {
            CommitPhase::Hooks => {
                assert(views(self.hooks@)[self.next_hook as int] == self.hooks@[self.next_hook as int]@);
                let n = self.hooks.len();
                match GitOps::hook_outcome(self.hooks[self.next_hook].as_str(), out) {
                    Err(e) => {
                        self.phase = CommitPhase::Done;
                        Some(Err(e))
                    },
                    Ok(()) => {
                        assert(self.next_hook < n);
                        self.next_hook = self.next_hook + 1;
                        if self.next_hook == self.hooks.len() {
                            self.phase = CommitPhase::Stage;
                        }
                        None
                    },
                }
            },
            CommitPhase::Stage => match GitOps::check_git_output(out) {
                Err(e) => {
                    self.phase = CommitPhase::Done;
                    Some(Err(e))
                },
                Ok(_) => {
                    self.phase = CommitPhase::Commit;
                    None
                },
            },
            CommitPhase::Commit => match GitOps::check_git_output(out) {
                Err(e) => {
                    self.phase = CommitPhase::Done;
                    Some(Err(e))
                },
                Ok(_) => {
                    self.phase = CommitPhase::Done;
                    Some(Ok(()))
                },
            },
            CommitPhase::Done => {
                assert(false);
                None
            },
        }
    }
}

/// The commit itself is the last step: it is requested only after every hook and the
/// staging step have succeeded, and nothing is requested after it.
pub proof fn law_commit_comes_last(hooks: Seq<Seq<char>>, message: Seq<char>, step: nat)
    ensures
        commit_step_request(hooks, message, step) matches Some((p, a)) && a.len() > 0 && a[0]
            == "commit"@ ==> step == hooks.len() + 1,
        step > hooks.len() + 1 ==> commit_step_request(hooks, message, step) is None,
{
    reveal_strlit("commit");
    reveal_strlit("-c");
    reveal_strlit("add");
    if step < hooks.len() {
        assert("-c"@[0] != "commit"@[0]);
    } else if step == hooks.len() {
        assert("add"@[0] != "commit"@[0]);
    }
}

} // verus!
