use gba_core::Workspace;

#[test]
fn workspace_test_workspace_paths() {
    let ws = Workspace::new("/path/to/repo");
    assert_eq!(ws.root(), "/path/to/repo");
    assert_eq!(ws.gba_dir(), "/path/to/repo/.gba");
    assert_eq!(ws.specs_dir(), "/path/to/repo/.gba/specs");
    assert_eq!(ws.trees_dir(), "/path/to/repo/.gba/trees");
    assert_eq!(ws.config_path(), "/path/to/repo/.gba/config.yaml");
}

#[test]
fn test_feature_spec_dir() {
    let ws = Workspace::new("/repo");
    assert_eq!(ws.feature_spec_dir("0001"), "/repo/.gba/specs/0001_");
}

#[test]
fn test_design_spec_path() {
    let ws = Workspace::new("/repo");
    assert_eq!(ws.design_spec_path("0001"), "/repo/.gba/specs/0001_/design.md");
}

#[test]
fn test_verification_path() {
    let ws = Workspace::new("/repo");
    assert_eq!(
        ws.verification_path("0001"),
        "/repo/.gba/specs/0001_/verification.md"
    );
}

#[test]
fn workspace_templates_dir() {
    let ws = Workspace::new("/repo");
    assert_eq!(ws.templates_dir(), "/repo/.gba/templates");
}

fn names(v: &[&str]) -> Vec<String> {
    v.iter().map(|s| s.to_string()).collect()
}

#[test]
fn workspace_next_feature_id_first() {
    assert_eq!(Workspace::next_feature_id_from(&names(&[])), "0001");
}

#[test]
fn workspace_next_feature_id_after_existing() {
    let n = names(&["0001_add-auth", "0002_add-logging"]);
    assert_eq!(Workspace::next_feature_id_from(&n), "0003");
    let n = names(&["0009_x", "notes", "0003_y", "+0012_z", "-5_w", "abc_1"]);
    assert_eq!(Workspace::next_feature_id_from(&n), "0013");
    let n = names(&["12345_big"]);
    assert_eq!(Workspace::next_feature_id_from(&n), "12346");
    let n = names(&["4294967296_overflowing", "0007"]);
    assert_eq!(Workspace::next_feature_id_from(&n), "0008");
}

#[test]
fn workspace_next_id_is_fresh() {
    let n = names(&["0004_a", "0010_b", "0002_c"]);
    let next = Workspace::next_feature_id_from(&n);
    let next_num: u32 = next.parse().unwrap();
    for name in &n {
        let id: u32 = name.split('_').next().unwrap().parse().unwrap();
        assert!(id < next_num);
    }
}

#[test]
fn workspace_feature_ids_sorted() {
    let n = names(&["0003_c", "0001_a", "0002_b"]);
    assert_eq!(
        Workspace::feature_ids_from(&n),
        vec!["0001", "0002", "0003"]
    );
    let n = names(&["b", "a_x", "b_y", "ä_z", "Z"]);
    assert_eq!(
        Workspace::feature_ids_from(&n),
        vec!["Z", "a", "b", "b", "ä"]
    );
    assert_eq!(Workspace::feature_ids_from(&names(&[])), Vec::<String>::new());
}
