use gba_core::{GbaCoreError, GbaMdEntry, PromptContext, PromptId, PromptManager};

fn defaults(source: &str) -> Vec<String> {
    vec![source.to_string(); 11]
}

#[test]
fn test_render_defaults() {
    let m = PromptManager::new(defaults("Hello {{ feature_slug }} in {{ working_dir }}"), vec![None; 11]).unwrap();
    let ctx = PromptContext::new().with_feature_slug("auth").with_working_dir("/repo");
    assert_eq!(m.render(PromptId::InitSystem, &ctx).unwrap(), "Hello auth in /repo");
}

#[test]
fn test_override_wins() {
    let mut overrides = vec![None; 11];
    overrides[8] = Some("Phase {{ phase_index }}/{{ phase_total }}: {{ phase_name }}".to_string());
    let m = PromptManager::new(defaults("default"), overrides).unwrap();
    let ctx = PromptContext::new().with_phase_index(2).with_phase_total(3).with_phase_name("Core");
    assert_eq!(m.render(PromptId::RunPhase, &ctx).unwrap(), "Phase 2/3: Core");
    assert_eq!(m.render(PromptId::RunSystem, &ctx).unwrap(), "default");
}

#[test]
fn test_render_lists_and_entries() {
    let src = "{% for i in review_issues %}[{{ i }}]{% endfor %}{% for f in gba_md_files %}<{{ f.path }}={{ f.summary }}>{% endfor %}";
    let m = PromptManager::new(defaults(src), vec![None; 11]).unwrap();
    let ctx = PromptContext::new()
        .with_review_issues(vec!["a".to_string(), "b".to_string()])
        .with_gba_md_files(vec![GbaMdEntry::new("src/gba.md", "Sources")]);
    assert_eq!(m.render(PromptId::InitClaudeMd, &ctx).unwrap(), "[a][b]<src/gba.md=Sources>");
}

#[test]
fn test_invalid_template_is_refused() {
    let mut overrides = vec![None; 11];
    overrides[0] = Some("{% if %}".to_string());
    match PromptManager::new(defaults("ok"), overrides) {
        Err(GbaCoreError::PromptError(m)) => {
            assert!(m.starts_with("Failed to render template 'init_system.jinja': "), "{m}")
        }
        other => panic!("unexpected {:?}", other.map(|_| ())),
    }
}

#[test]
fn test_render_error() {
    let m = PromptManager::new(defaults("{{ feature_slug | no_such_filter }}"), vec![None; 11]);
    match m {
        Ok(m) => match m.render(PromptId::RunVerify, &PromptContext::new()) {
            Err(GbaCoreError::PromptError(msg)) => {
                assert!(msg.starts_with("Failed to render template 'run_verify.jinja': "), "{msg}")
            }
            other => panic!("unexpected {:?}", other),
        },
        Err(GbaCoreError::PromptError(msg)) => {
            assert!(msg.starts_with("Failed to render template 'init_system.jinja': "), "{msg}")
        }
        Err(e) => panic!("unexpected {:?}", e),
    }
}

#[test]
fn test_templates_share_one_environment() {
    let mut overrides = vec![None; 11];
    overrides[0] = Some("Base: {{ feature_slug }}".to_string());
    overrides[4] = Some("{% include 'init_system.jinja' %} / plan".to_string());
    let m = PromptManager::new(defaults("d"), overrides).unwrap();
    let ctx = PromptContext::new().with_feature_slug("x");
    assert_eq!(m.render(PromptId::PlanSystem, &ctx).unwrap(), "Base: x / plan");
}
