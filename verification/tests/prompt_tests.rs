use gba_core::{GbaMdEntry, PromptContext, PromptId, PromptRole};

#[test]
fn test_prompt_roles() {
    assert_eq!(PromptId::InitSystem.role(), PromptRole::System);
    assert_eq!(PromptId::PlanSystem.role(), PromptRole::System);
    assert_eq!(PromptId::RunSystem.role(), PromptRole::System);

    assert_eq!(PromptId::InitAnalyze.role(), PromptRole::User);
    assert_eq!(PromptId::InitGbaMd.role(), PromptRole::User);
    assert_eq!(PromptId::InitClaudeMd.role(), PromptRole::User);
    assert_eq!(PromptId::PlanDesignSpec.role(), PromptRole::User);
    assert_eq!(PromptId::PlanVerification.role(), PromptRole::User);
    assert_eq!(PromptId::RunPhase.role(), PromptRole::User);
    assert_eq!(PromptId::RunReview.role(), PromptRole::User);
    assert_eq!(PromptId::RunVerify.role(), PromptRole::User);
}

#[test]
fn test_system_prompts_return_system_role() {
    assert_eq!(PromptId::InitSystem.role(), PromptRole::System);
    assert_eq!(PromptId::PlanSystem.role(), PromptRole::System);
    assert_eq!(PromptId::RunSystem.role(), PromptRole::System);
}

#[test]
fn test_user_prompts_return_user_role() {
    assert_eq!(PromptId::InitAnalyze.role(), PromptRole::User);
    assert_eq!(PromptId::InitGbaMd.role(), PromptRole::User);
    assert_eq!(PromptId::InitClaudeMd.role(), PromptRole::User);
    assert_eq!(PromptId::PlanDesignSpec.role(), PromptRole::User);
    assert_eq!(PromptId::PlanVerification.role(), PromptRole::User);
    assert_eq!(PromptId::RunPhase.role(), PromptRole::User);
    assert_eq!(PromptId::RunReview.role(), PromptRole::User);
    assert_eq!(PromptId::RunVerify.role(), PromptRole::User);
}

#[test]
fn test_template_names() {
    assert_eq!(PromptId::InitSystem.template_name(), "init_system.jinja");
    assert_eq!(PromptId::RunPhase.template_name(), "run_phase.jinja");
}

#[test]
fn prompt_template_names_distinct_and_roles_match() {
    let ids = PromptId::all();
    assert_eq!(ids.len(), 11);
    for (i, a) in ids.iter().enumerate() {
        for b in ids.iter().skip(i + 1) {
            assert_ne!(a.template_name(), b.template_name());
        }
        assert_eq!(
            a.role() == PromptRole::System,
            a.template_name().ends_with("_system.jinja")
        );
    }
}

#[test]
fn test_gba_md_entry_new() {
    let entry = GbaMdEntry::new("src/auth/gba.md", "Auth module");
    assert_eq!(entry.path, "src/auth/gba.md");
    assert_eq!(entry.summary, "Auth module");
}

#[test]
fn test_gba_md_entry_default() {
    let entry = GbaMdEntry::default();
    assert!(entry.path.is_empty());
    assert!(entry.summary.is_empty());
}

#[test]
fn test_prompt_context_default() {
    let ctx = PromptContext::default();
    assert!(ctx.feature_slug.is_empty());
    assert!(ctx.feature_id.is_empty());
    assert!(ctx.working_dir.is_empty());
    assert!(ctx.repo_tree.is_empty());
    assert!(ctx.design_spec.is_empty());
    assert!(ctx.verification_plan.is_empty());
    assert!(ctx.phase_name.is_empty());
    assert!(ctx.phase_description.is_empty());
    assert_eq!(ctx.phase_index, 0);
    assert_eq!(ctx.phase_total, 0);
    assert!(ctx.review_issues.is_empty());
    assert!(ctx.directory_path.is_empty());
    assert!(ctx.directory_analysis.is_empty());
    assert!(ctx.gba_md_files.is_empty());
}

#[test]
fn test_prompt_context_builder() {
    let ctx = PromptContext::new()
        .with_feature_slug("add-auth")
        .with_feature_id("0001")
        .with_working_dir("/path/to/repo")
        .with_repo_tree("src/\n  main.rs")
        .with_phase_name("Implementation")
        .with_phase_description("Add auth module")
        .with_phase_index(1)
        .with_phase_total(3);

    assert_eq!(ctx.feature_slug, "add-auth");
    assert_eq!(ctx.feature_id, "0001");
    assert_eq!(ctx.working_dir, "/path/to/repo");
    assert_eq!(ctx.repo_tree, "src/\n  main.rs");
    assert_eq!(ctx.phase_name, "Implementation");
    assert_eq!(ctx.phase_description, "Add auth module");
    assert_eq!(ctx.phase_index, 1);
    assert_eq!(ctx.phase_total, 3);
}

#[test]
fn test_prompt_context_with_gba_md_files() {
    let files = vec![
        GbaMdEntry::new("src/auth/gba.md", "Auth"),
        GbaMdEntry::new("src/db/gba.md", "Database"),
    ];

    let ctx = PromptContext::new().with_gba_md_files(files.clone());
    assert_eq!(ctx.gba_md_files.len(), 2);
    assert_eq!(ctx.gba_md_files[0].path, "src/auth/gba.md");
}

#[test]
fn prompt_context_builders_touch_one_field() {
    let base = PromptContext::new()
        .with_feature_slug("s")
        .with_review_issues(vec!["a: b".to_string()])
        .with_directory_path("src")
        .with_directory_analysis("analysis")
        .with_design_spec("d")
        .with_verification_plan("v");
    let next = base.clone().with_phase_index(7);
    assert_eq!(next.phase_index, 7);
    assert_eq!(next.feature_slug, "s");
    assert_eq!(next.review_issues, vec!["a: b".to_string()]);
    assert_eq!(next.directory_path, "src");
    assert_eq!(next.directory_analysis, "analysis");
    assert_eq!(next.design_spec, "d");
    assert_eq!(next.verification_plan, "v");
    assert_eq!(next.with_phase_index(0), base);
}
