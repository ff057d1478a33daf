use gba_core::{CommitProgress, GbaCoreError, GitOps, ProcessOutput, ProcessRequest};

fn ok(stdout: &str) -> Result<ProcessOutput, String> {
    Ok(ProcessOutput { success: true, stdout: stdout.to_string(), stderr: String::new() })
}

fn failed(stdout: &str, stderr: &str) -> Result<ProcessOutput, String> {
    Ok(ProcessOutput { success: false, stdout: stdout.to_string(), stderr: stderr.to_string() })
}

fn strings(v: &[&str]) -> Vec<String> {
    v.iter().map(|s| s.to_string()).collect()
}

#[test]
fn test_git_ops_new() {
    let ops = GitOps::new("/repo");
    assert_eq!(ops.working_dir(), "/repo");
}

#[test]
fn test_git_ops_clone() {
    let ops = GitOps::new("/repo");
    let cloned = ops.clone();
    assert_eq!(ops.working_dir(), cloned.working_dir());
}

#[test]
fn test_default_hooks() {
    assert_eq!(
        GitOps::default_hooks(),
        strings(&["cargo build", "cargo +nightly fmt", "cargo clippy -- -D warnings", "cargo audit"])
    );
}

#[test]
fn test_create_pr_request() {
    let ops = GitOps::new("/repo");
    let r = ops.create_pr("feat: x", "body text");
    assert_eq!(
        r,
        ProcessRequest {
            program: "gh".to_string(),
            args: strings(&["pr", "create", "--title", "feat: x", "--body", "body text"]),
            current_dir: "/repo".to_string(),
        }
    );
}

#[test]
fn test_current_branch_and_status_requests() {
    let ops = GitOps::new("/w");
    let b = ops.current_branch();
    assert_eq!(b.program, "git");
    assert_eq!(b.args, strings(&["branch", "--show-current"]));
    assert_eq!(b.current_dir, "/w");
    let s = ops.has_changes();
    assert_eq!(s.args, strings(&["status", "--porcelain"]));
}

#[test]
fn test_pr_url_trims_output() {
    assert_eq!(GitOps::pr_url(ok("  https://github.com/o/r/pull/1\n")).unwrap(), "https://github.com/o/r/pull/1");
}

#[test]
fn test_pr_url_failure() {
    match GitOps::pr_url(failed("", " not logged in \n")) {
        Err(GbaCoreError::RunError(m)) => assert_eq!(m, "gh command failed: not logged in"),
        other => panic!("unexpected {:?}", other),
    }
    match GitOps::pr_url(Err("no such file".to_string())) {
        Err(GbaCoreError::RunError(m)) => assert_eq!(m, "Failed to run gh command: no such file"),
        other => panic!("unexpected {:?}", other),
    }
}

#[test]
fn test_branch_name_and_changes() {
    assert_eq!(GitOps::branch_name(ok("main\n")).unwrap(), "main");
    assert!(GitOps::changes_present(ok(" M src/lib.rs\n")).unwrap());
    assert!(!GitOps::changes_present(ok("")).unwrap());
    match GitOps::branch_name(failed("", "fatal: not a git repository")) {
        Err(GbaCoreError::RunError(m)) => assert_eq!(m, "Git command failed: fatal: not a git repository"),
        other => panic!("unexpected {:?}", other),
    }
}

#[test]
fn test_hook_outcome() {
    assert!(GitOps::hook_outcome("cargo build", ok("")).is_ok());
    // A hook that fails without printing anything is an error too.
    match GitOps::hook_outcome("cargo audit", failed("", "")) {
        Err(GbaCoreError::RunError(m)) => {
            assert_eq!(m, "Pre-commit hook 'cargo audit' failed:\nstdout: \nstderr: ")
        }
        other => panic!("unexpected {:?}", other),
    }
    match GitOps::hook_outcome("cargo build", failed("out ", " err")) {
        Err(GbaCoreError::RunError(m)) => {
            assert_eq!(m, "Pre-commit hook 'cargo build' failed:\nstdout: out\nstderr: err")
        }
        other => panic!("unexpected {:?}", other),
    }
    match GitOps::hook_outcome("x", Err("boom".to_string())) {
        Err(GbaCoreError::RunError(m)) => assert_eq!(m, "Failed to run hook 'x': boom"),
        other => panic!("unexpected {:?}", other),
    }
}

fn drive(progress: &mut CommitProgress) -> Vec<ProcessRequest> {
    let mut seen = Vec::new();
    while let Some(req) = progress.next_request() {
        seen.push(req);
        if let Some(outcome) = progress.record(ok("")) {
            assert!(outcome.is_ok());
        }
    }
    seen
}

#[test]
fn test_commit_sequence_with_hooks() {
    let ops = GitOps::new("/repo");
    let mut p = ops.commit_phase_with_hooks("feat: phase 1", strings(&["make lint"]));
    let seen = drive(&mut p);
    assert_eq!(seen.len(), 3);
    assert_eq!(seen[0].program, "sh");
    assert_eq!(seen[0].args, strings(&["-c", "make lint"]));
    assert_eq!(seen[1].program, "git");
    assert_eq!(seen[1].args, strings(&["add", "-A"]));
    assert_eq!(seen[2].args, strings(&["commit", "-m", "feat: phase 1", "--no-verify"]));
    assert!(p.next_request().is_none());
}

#[test]
fn test_commit_phase_uses_default_hooks() {
    let ops = GitOps::new("/repo");
    let mut p = ops.commit_phase("msg");
    let seen = drive(&mut p);
    assert_eq!(seen.len(), 6);
    assert_eq!(seen[0].args, strings(&["-c", "cargo build"]));
    assert_eq!(seen[3].args, strings(&["-c", "cargo audit"]));
    assert_eq!(seen[5].args[0], "commit");
}

#[test]
fn test_commit_stops_at_failed_hook() {
    let ops = GitOps::new("/repo");
    let mut p = ops.commit_phase_with_hooks("m", strings(&["a", "b"]));
    assert!(p.record(ok("")).is_none());
    match p.record(failed("bad", "")) {
        Some(Err(GbaCoreError::RunError(m))) => {
            assert_eq!(m, "Pre-commit hook 'b' failed:\nstdout: bad\nstderr: ")
        }
        other => panic!("unexpected {:?}", other),
    }
    // Nothing runs after the failed hook: no staging, no commit.
    assert!(p.next_request().is_none());
}

#[test]
fn test_silent_hook_failure_stops_commit() {
    let ops = GitOps::new("/repo");
    let mut p = ops.commit_phase_with_hooks("m", strings(&["a", "b"]));
    assert!(matches!(p.record(failed("", "")), Some(Err(GbaCoreError::RunError(_)))));
    assert!(p.next_request().is_none());
}

#[test]
fn test_commit_reports_final_success() {
    let ops = GitOps::new("/repo");
    let mut p = ops.commit_phase_with_hooks("m", strings(&["a"]));
    assert!(p.record(ok("")).is_none());
    assert!(p.record(ok("")).is_none());
    assert_eq!(p.record(ok("")), Some(Ok(())));
}
