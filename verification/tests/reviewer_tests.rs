use gba_core::reviewer::{fix_prompt, issue_summaries, review_json, MAX_FIX_ITERATIONS};
use gba_core::{FixLoop, GbaConfig, ReviewIssue, ReviewResult, Reviewer};

fn issue(file: &str, line: Option<usize>, description: &str) -> ReviewIssue {
    ReviewIssue { file: file.to_string(), line, description: description.to_string(), suggestion: None }
}

#[test]
fn test_review_result_debug() {
    let result = ReviewResult { passed: true, issues: vec![] };
    let debug_str = format!("{:?}", result);
    assert!(debug_str.contains("passed"));
}

#[test]
fn test_review_result_from_issues() {
    assert!(ReviewResult::from_issues(vec![]).passed);
    let r = ReviewResult::from_issues(vec![issue("a.rs", None, "x")]);
    assert!(!r.passed);
    assert_eq!(r.issues.len(), 1);
}

#[test]
fn test_fix_prompt_text() {
    let issues = vec![issue("src/lib.rs", Some(42), "Missing docs"), issue("src/main.rs", None, "Unused import")];
    assert_eq!(
        fix_prompt(&issues),
        "Please fix the following issues found during code review:\n\n- src/lib.rs:42: Missing docs\n- src/main.rs: Unused import"
    );
    assert_eq!(fix_prompt(&vec![]), "Please fix the following issues found during code review:\n\n");
}

#[test]
fn test_issue_summaries() {
    let issues = vec![issue("a.rs", Some(1), "one"), issue("b.rs", None, "two")];
    assert_eq!(issue_summaries(&issues), vec!["a.rs: one".to_string(), "b.rs: two".to_string()]);
}

#[test]
fn test_review_json_slice() {
    assert_eq!(review_json("Here: [{\"a\":1}] done").as_deref(), Some("[{\"a\":1}]"));
    assert_eq!(review_json("no json here"), None);
}

#[test]
fn test_fix_loop_is_bounded() {
    let mut l = FixLoop::new(vec![issue("a.rs", None, "x")]);
    let mut fixes = 0;
    while l.wants_fix() {
        let r = l.record_review(ReviewResult::from_issues(vec![issue("a.rs", None, "still")]));
        assert!(r.is_none());
        fixes += 1;
    }
    assert_eq!(fixes, MAX_FIX_ITERATIONS);
    assert_eq!(l.iteration(), 3);
    let out = l.outcome();
    assert!(!out.passed);
    assert_eq!(out.issues[0].description, "still");
}

#[test]
fn test_fix_loop_stops_on_passing_review() {
    let mut l = FixLoop::new(vec![issue("a.rs", None, "x")]);
    assert!(l.wants_fix());
    let r = l.record_review(ReviewResult::from_issues(vec![]));
    assert_eq!(r, Some(ReviewResult { passed: true, issues: vec![] }));
    assert_eq!(l.iteration(), 1);
}

#[test]
fn test_fix_loop_without_issues() {
    let l = FixLoop::new(vec![]);
    assert!(!l.wants_fix());
    assert!(l.outcome().passed);
}

#[test]
fn test_reviewer_contexts() {
    let config = GbaConfig::new("/repo");
    let r = Reviewer::new(&config, "0004");
    assert_eq!(r.feature_id(), "0004");
    assert_eq!(r.review_session().max_turns, 5);
    assert_eq!(r.fix_session().max_turns, 20);
    let ctx = r.review_context();
    assert_eq!(ctx.working_dir, "/repo");
    assert_eq!(ctx.feature_slug, "0004");
    let ctx = r.fix_context(&vec![issue("x.rs", Some(1), "oops")]);
    assert_eq!(ctx.review_issues, vec!["x.rs: oops".to_string()]);
}

#[test]
fn test_parse_review_response() {
    let r = Reviewer::parse_review_response(None);
    assert!(r.passed);
    assert!(r.issues.is_empty());
    let r = Reviewer::parse_review_response(Some(vec![issue("a", None, "b")]));
    assert!(!r.passed);
}
