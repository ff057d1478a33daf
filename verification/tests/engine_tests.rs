use gba_core::engine::{
    analysis_json, common_directories, directories_from_text, gba_md_entry, gba_md_progress,
    parse_analysis_directories, pr_body, pr_event, pr_title, review_events, verification_events,
    InitFlow, InitStage, RunFlow, RunStage,
};
use gba_core::{AgentPreset, DirectoryInfo, GbaCoreError, GbaEvent, ReviewIssue, ReviewResult, VerificationResult};

#[test]
fn test_directories_from_text() {
    let d = directories_from_text("Important:\n- src/core\n  * lib  \n-nope\n- \n");
    assert_eq!(d.len(), 2);
    assert_eq!(d[0], DirectoryInfo { path: "src/core".to_string(), analysis: String::new(), summary: "src/core".to_string() });
    assert_eq!(d[1].path, "lib");
}

#[test]
fn test_parse_analysis_prefers_json() {
    let json = vec![DirectoryInfo { path: "a".to_string(), analysis: "x".to_string(), summary: "y".to_string() }];
    let r = parse_analysis_directories("- b", Some(json.clone()), &vec![]);
    assert_eq!(r, json);
}

#[test]
fn test_parse_analysis_falls_back_to_common() {
    let r = parse_analysis_directories("nothing listed", None, &vec!["src".to_string(), "lib".to_string()]);
    assert_eq!(r.len(), 2);
    assert_eq!(r[1].summary, "lib");
    let r = parse_analysis_directories("- apps", None, &vec!["src".to_string()]);
    assert_eq!(r.len(), 1);
    assert_eq!(r[0].path, "apps");
}

#[test]
fn test_common_directories() {
    assert_eq!(common_directories(), vec!["src", "crates", "apps", "lib"]);
}

#[test]
fn test_analysis_json() {
    assert_eq!(analysis_json("x [1, 2] y").as_deref(), Some("[1, 2]"));
    assert_eq!(analysis_json("x"), None);
}

#[test]
fn test_gba_md_entry_and_pr_text() {
    let d = DirectoryInfo { path: "src".to_string(), analysis: String::new(), summary: "Sources".to_string() };
    let e = gba_md_entry(&d);
    assert_eq!(e.path, "src/gba.md");
    assert_eq!(e.summary, "Sources");
    assert_eq!(pr_title("0002-auth"), "feat: 0002-auth (0002-auth)");
    assert_eq!(pr_body("7", "D"), "## Summary\n\nImplementation of feature 7.\n\n## Design\n\nD");
}

#[test]
fn test_review_and_verification_events() {
    assert!(review_events(&ReviewResult { passed: true, issues: vec![] }).is_empty());
    let issue = ReviewIssue { file: "a.rs".to_string(), line: Some(3), description: "bad".to_string(), suggestion: None };
    let ev = review_events(&ReviewResult::from_issues(vec![issue]));
    assert_eq!(ev, vec![GbaEvent::IssuesFound(vec!["a.rs: bad".to_string()]), GbaEvent::FixingIssues]);

    let (ev, go_on) = verification_events(VerificationResult { passed: true, details: "ok".to_string(), summary: None });
    assert!(go_on);
    assert_eq!(ev, vec![GbaEvent::VerificationResult { passed: true, details: "ok".to_string() }]);
    let (ev, go_on) = verification_events(VerificationResult { passed: false, details: "no".to_string(), summary: None });
    assert!(!go_on);
    assert_eq!(ev[1], GbaEvent::Error("Verification failed. Please fix the issues and run again.".to_string()));
}

#[test]
fn test_pr_event_and_progress() {
    assert_eq!(pr_event(Ok("u".to_string())), GbaEvent::PrCreated { url: "u".to_string() });
    assert_eq!(
        pr_event(Err(GbaCoreError::RunError("gh command failed: x".to_string()))),
        GbaEvent::Error("Failed to create PR: Run error: gh command failed: x".to_string())
    );
    assert_eq!(gba_md_progress("src"), "Generating gba.md for src...");
}


fn unfixed_issue() -> ReviewIssue {
    ReviewIssue { file: "a.rs".to_string(), line: None, description: "bad".to_string(), suggestion: None }
}

#[test]
fn test_run_flow_happy_path() {
    let mut f = RunFlow::new(2);
    assert_eq!(f.stage(), RunStage::Phase { index: 0 });
    assert_eq!(f.preset(), Some(AgentPreset::FullCoding));
    f.phase_committed();
    assert_eq!(f.stage(), RunStage::Phase { index: 1 });
    f.phase_committed();
    assert_eq!(f.stage(), RunStage::Review);
    assert!(f.review_done(ReviewResult::from_issues(vec![])).is_empty());
    assert_eq!(f.stage(), RunStage::Verify);
    assert_eq!(f.preset(), Some(AgentPreset::Verify));
    let ev = f.verified(VerificationResult { passed: true, details: "ok".to_string(), summary: None });
    assert_eq!(ev.len(), 1);
    assert_eq!(f.stage(), RunStage::PullRequest);
    assert_eq!(f.pr_done(Ok("u".to_string())), GbaEvent::PrCreated { url: "u".to_string() });
    assert_eq!(f.stage(), RunStage::Done);
}

#[test]
fn test_run_flow_fixes_then_passes() {
    let mut f = RunFlow::new(0);
    assert_eq!(f.stage(), RunStage::Review);
    let ev = f.review_done(ReviewResult::from_issues(vec![unfixed_issue()]));
    assert_eq!(ev[1], GbaEvent::FixingIssues);
    assert_eq!(f.stage(), RunStage::Fix);
    f.fix_done();
    assert_eq!(f.stage(), RunStage::Rereview);
    f.review_done(ReviewResult::from_issues(vec![]));
    assert_eq!(f.stage(), RunStage::Verify);
    f.verified(VerificationResult { passed: false, details: "no".to_string(), summary: None });
    assert_eq!(f.stage(), RunStage::Done);
}

#[test]
fn test_run_flow_gives_up_after_three_fixes() {
    let mut f = RunFlow::new(0);
    f.review_done(ReviewResult::from_issues(vec![unfixed_issue()]));
    let mut fixes = 0;
    while f.stage() == RunStage::Fix {
        f.fix_done();
        fixes += 1;
        assert_eq!(f.preset(), Some(AgentPreset::ReadOnly));
        let ev = f.review_done(ReviewResult::from_issues(vec![unfixed_issue()]));
        if f.stage() == RunStage::Unfixed {
            assert_eq!(
                ev,
                vec![GbaEvent::Error(format!("Could not fix all issues: {:?}", vec![unfixed_issue()]))]
            );
            assert!(matches!(&ev[0], GbaEvent::Error(m) if m.starts_with("Could not fix all issues: [ReviewIssue { file: \"a.rs\"")));
        } else {
            assert!(ev.is_empty());
        }
    }
    assert_eq!(fixes, 3);
    assert_eq!(f.stage(), RunStage::Unfixed);
    assert_eq!(f.preset(), None);
    assert_eq!(f.issues().len(), 1);
}

#[test]
fn test_init_flow() {
    let mut f = InitFlow::new();
    assert_eq!(f.stage(), InitStage::Prepare);
    assert_eq!(f.preset(), None);
    assert_eq!(f.stage_message(), None);
    f.workspace_ready();
    assert_eq!(f.stage(), InitStage::Analyze);
    assert_eq!(f.preset(), Some(AgentPreset::ReadOnly));
    assert_eq!(f.stage_message().as_deref(), Some("Analyzing repository structure..."));
    let d = |p: &str| DirectoryInfo { path: p.to_string(), analysis: String::new(), summary: format!("{p} dir") };
    f.analyzed(vec![d("src"), d("lib")]);
    assert_eq!(f.stage(), InitStage::Document { index: 0 });
    assert_eq!(f.current_dir().path, "src");
    assert_eq!(f.preset(), Some(AgentPreset::WriteSpec));
    assert_eq!(f.stage_message().as_deref(), Some("Generating gba.md for src..."));
    f.documented();
    assert_eq!(f.current_dir().path, "lib");
    f.documented();
    assert_eq!(f.stage(), InitStage::Instructions);
    let e = f.entries();
    assert_eq!(e.len(), 2);
    assert_eq!(e[1].path, "lib/gba.md");
    assert_eq!(e[1].summary, "lib dir");
    assert_eq!(f.preset(), Some(AgentPreset::WriteSpec));
    f.instructions_done();
    assert_eq!(f.stage(), InitStage::Done);
    assert_eq!(f.stage_message().as_deref(), Some("Repository initialized successfully!"));

    let mut f = InitFlow::new();
    f.workspace_ready();
    f.analyzed(vec![]);
    assert_eq!(f.stage(), InitStage::Instructions);
    assert!(f.entries().is_empty());
}
