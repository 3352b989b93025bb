use warp_app::local_control::{
    file_mutation_candidate, file_mutation_probe, file_mutation_roots, finish_file_mutation_path,
    join_path_exec, path_has_safe_components, path_starts_with_exec, plan_tab_close,
    tab_create_plan, tab_create_response, tab_index_from_target, ActionKind, ErrorCode,
    PaneTarget, PathProbe, TabCloseMode, TabCreateParams, TabCreatePlan, TabInfo, TabSelector,
    TabTarget, TabType, TargetSelector,
};
use warp_app::JsonValue;

fn roots(list: &[&str]) -> Vec<String> {
    list.iter().map(|s| s.to_string()).collect()
}

#[test]
fn safe_components_reject_parent_traversal() {
    assert!(path_has_safe_components("a/b/c.txt"));
    assert!(path_has_safe_components("/x/./y"));
    assert!(path_has_safe_components("a/..b"));
    assert!(!path_has_safe_components("a/../b"));
    assert!(!path_has_safe_components(".."));
    assert!(!path_has_safe_components("/tmp/.."));
}

#[test]
fn join_and_starts_with_follow_path_semantics() {
    assert_eq!(join_path_exec("/repo", "src/lib.rs"), "/repo/src/lib.rs");
    assert_eq!(join_path_exec("/repo/", "src"), "/repo/src");
    assert_eq!(join_path_exec("", "src"), "src");
    assert!(path_starts_with_exec("/repo/src/lib.rs", "/repo"));
    assert!(path_starts_with_exec("/repo/", "/repo"));
    assert!(path_starts_with_exec("/repo//src/./x", "/repo/src"));
    assert!(!path_starts_with_exec("/repository/x", "/repo"));
    assert!(!path_starts_with_exec("repo/x", "/repo"));
    assert!(path_starts_with_exec("./a/b", "./a"));
    assert!(!path_starts_with_exec("a/b", "./a"));
}

#[test]
fn candidate_paths() {
    let one = roots(&["/repo"]);
    let two = roots(&["/repo", "/other"]);
    assert_eq!(file_mutation_candidate(ActionKind::FileWrite, "src/x.rs", &one).unwrap(), "/repo/src/x.rs");
    assert_eq!(file_mutation_candidate(ActionKind::FileWrite, "/abs/x.rs", &two).unwrap(), "/abs/x.rs");
    assert_eq!(file_mutation_candidate(ActionKind::FileWrite, "src/x.rs", &two).unwrap_err().code, ErrorCode::InvalidSelector);
    let err = file_mutation_candidate(ActionKind::FileWrite, "", &one).unwrap_err();
    assert_eq!(err.code, ErrorCode::InvalidParams);
    assert_eq!(err.message, "file.write requires a non-empty path");
    let err = file_mutation_candidate(ActionKind::FileDelete, "../x", &one).unwrap_err();
    assert_eq!(err.code, ErrorCode::InvalidSelector);
    assert_eq!(err.message, "file.delete path must not contain parent traversal");
}

#[test]
fn probes_for_existing_and_missing_files() {
    match file_mutation_probe(ActionKind::FileWrite, "/repo/a.txt", true, true).unwrap() {
        PathProbe::Canonicalize { path } => assert_eq!(path, "/repo/a.txt"),
        other => panic!("unexpected probe {other:?}"),
    }
    match file_mutation_probe(ActionKind::FileWrite, "/repo/dir//new.txt", false, true).unwrap() {
        PathProbe::CanonicalizeParent { parent, file_name } => {
            assert_eq!(parent, "/repo/dir");
            assert_eq!(file_name, "new.txt");
        }
        other => panic!("unexpected probe {other:?}"),
    }
    match file_mutation_probe(ActionKind::FileWrite, "/new.txt", false, true).unwrap() {
        PathProbe::CanonicalizeParent { parent, file_name } => {
            assert_eq!(parent, "/");
            assert_eq!(file_name, "new.txt");
        }
        other => panic!("unexpected probe {other:?}"),
    }
    assert_eq!(file_mutation_probe(ActionKind::FileDelete, "/repo/a.txt", false, false).unwrap_err().code, ErrorCode::StaleTarget);
    assert_eq!(file_mutation_probe(ActionKind::FileWrite, "/", false, true).unwrap_err().code, ErrorCode::InvalidSelector);
}

#[test]
fn finishing_checks_the_workspace_roots() {
    let probe = PathProbe::CanonicalizeParent { parent: "/repo/dir".to_owned(), file_name: "new.txt".to_owned() };
    assert_eq!(
        finish_file_mutation_path(ActionKind::FileWrite, &probe, Ok("/repo/dir".to_owned()), &roots(&["/repo"])).unwrap(),
        "/repo/dir/new.txt"
    );
    let err = finish_file_mutation_path(ActionKind::FileWrite, &probe, Ok("/elsewhere".to_owned()), &roots(&["/repo"])).unwrap_err();
    assert_eq!(err.code, ErrorCode::InvalidSelector);
    let err = finish_file_mutation_path(ActionKind::FileWrite, &probe, Err("No such file".to_owned()), &roots(&["/repo"])).unwrap_err();
    assert_eq!(err.code, ErrorCode::StaleTarget);
    assert_eq!(err.details.as_deref(), Some("No such file"));
    let existing = PathProbe::Canonicalize { path: "/repo/a".to_owned() };
    assert_eq!(
        finish_file_mutation_path(ActionKind::FileDelete, &existing, Ok("/other/a".to_owned()), &roots(&["/repo", "/other"])).unwrap(),
        "/other/a"
    );
}

#[test]
fn roots_are_deduplicated_and_required() {
    assert_eq!(file_mutation_roots(roots(&["/a", "/b", "/a"])).unwrap(), roots(&["/a", "/b"]));
    assert_eq!(file_mutation_roots(vec![]).unwrap_err().code, ErrorCode::TargetStateConflict);
    assert_eq!(
        file_mutation_roots(roots(&["/z", "/a", "/z", "/m", "/a"])).unwrap(),
        roots(&["/z", "/a", "/m"])
    );
}

#[test]
fn error_codes_have_snake_case_wire_names() {
    assert_eq!(ErrorCode::InvalidParams.wire_name(), "invalid_params");
    assert_eq!(ErrorCode::TargetStateConflict.wire_name(), "target_state_conflict");
    assert_eq!(ErrorCode::Internal.wire_name(), "internal");
}

fn tabs(titles: &[(&str, &str)]) -> Vec<TabInfo> {
    titles.iter().map(|(id, t)| TabInfo { id: id.to_string(), title: t.to_string() }).collect()
}

fn with_tab(tab: Option<TabTarget>) -> TargetSelector {
    TargetSelector { tab, ..TargetSelector::default() }
}

#[test]
fn tab_selectors_resolve_against_the_window_tabs() {
    let t = tabs(&[("t1", "shell"), ("t2", "logs"), ("t3", "shell")]);
    assert_eq!(tab_index_from_target(&with_tab(None), &t, 1).unwrap(), 1);
    assert_eq!(tab_index_from_target(&with_tab(Some(TabTarget::Active)), &t, 2).unwrap(), 2);
    assert_eq!(tab_index_from_target(&with_tab(Some(TabTarget::Index { index: 2 })), &t, 0).unwrap(), 2);
    assert_eq!(tab_index_from_target(&with_tab(Some(TabTarget::Index { index: 3 })), &t, 0).unwrap_err().code, ErrorCode::MissingTarget);
    assert_eq!(tab_index_from_target(&with_tab(Some(TabTarget::Id { id: TabSelector("t2".to_owned()) })), &t, 0).unwrap(), 1);
    assert_eq!(tab_index_from_target(&with_tab(Some(TabTarget::Id { id: TabSelector("zz".to_owned()) })), &t, 0).unwrap_err().code, ErrorCode::StaleTarget);
    assert_eq!(tab_index_from_target(&with_tab(Some(TabTarget::Title { title: "logs".to_owned() })), &t, 0).unwrap(), 1);
    assert_eq!(tab_index_from_target(&with_tab(Some(TabTarget::Title { title: "shell".to_owned() })), &t, 0).unwrap_err().code, ErrorCode::AmbiguousTarget);
    assert_eq!(tab_index_from_target(&with_tab(Some(TabTarget::Title { title: "none".to_owned() })), &t, 0).unwrap_err().code, ErrorCode::MissingTarget);
}

#[test]
fn tab_close_plans() {
    let t = tabs(&[("a", "a"), ("b", "b"), ("c", "c"), ("d", "d")]);
    let sel = with_tab(Some(TabTarget::Index { index: 1 }));
    assert_eq!(plan_tab_close(&sel, TabCloseMode::Target, &t, 3).unwrap(), vec![1]);
    assert_eq!(plan_tab_close(&sel, TabCloseMode::Others, &t, 3).unwrap(), vec![0, 2, 3]);
    assert_eq!(plan_tab_close(&sel, TabCloseMode::RightOf, &t, 3).unwrap(), vec![2, 3]);
    assert_eq!(plan_tab_close(&with_tab(None), TabCloseMode::Active, &t, 3).unwrap(), vec![3]);
    assert!(plan_tab_close(&with_tab(Some(TabTarget::Index { index: 3 })), TabCloseMode::RightOf, &t, 0).unwrap().is_empty());
    let err = plan_tab_close(&sel, TabCloseMode::Active, &t, 3).unwrap_err();
    assert_eq!(err.code, ErrorCode::InvalidSelector);
    assert_eq!(err.message, "tab.close active does not accept a concrete tab selector");
    let pane = TargetSelector { pane: Some(PaneTarget::Active), ..TargetSelector::default() };
    let err = plan_tab_close(&pane, TabCloseMode::Target, &t, 0).unwrap_err();
    assert_eq!(err.message, "tab.close does not accept pane or session selectors");
}

#[test]
fn tab_create_plans() {
    let plan = tab_create_plan(&TabCreateParams { shell: Some("zsh".to_owned()), tab_type: None }).unwrap();
    assert!(matches!(plan, TabCreatePlan::AddTabWithShell { shell } if shell == "zsh"));
    let err = tab_create_plan(&TabCreateParams { shell: Some("zsh".to_owned()), tab_type: Some(TabType::Agent) }).unwrap_err();
    assert_eq!(err.code, ErrorCode::InvalidParams);
    assert!(matches!(tab_create_plan(&TabCreateParams { shell: None, tab_type: None }).unwrap(), TabCreatePlan::AddTerminalTab));
    assert!(matches!(tab_create_plan(&TabCreateParams { shell: None, tab_type: Some(TabType::Agent) }).unwrap(), TabCreatePlan::AddAgentTab));
    assert!(matches!(tab_create_plan(&TabCreateParams { shell: None, tab_type: Some(TabType::Default) }).unwrap(), TabCreatePlan::AddDefaultTab));
    assert_eq!(tab_create_plan(&TabCreateParams { shell: None, tab_type: Some(TabType::CloudAgent) }).unwrap_err().code, ErrorCode::UnsupportedAction);
}

#[test]
fn tab_create_response_reports_counts() {
    match tab_create_response(Some("inst"), "7", "tab-9", 2, 3, 2) {
        JsonValue::Object(m) => {
            assert_eq!(m.len(), 5);
            assert!(matches!(&m[0].1, JsonValue::String(s) if s == "tab.create"));
            match &m[4].1 {
                JsonValue::Object(t) => {
                    assert!(matches!(&t[1].1, JsonValue::Number(n) if n == "2"));
                    assert!(matches!(&t[2].1, JsonValue::Number(n) if n == "3"));
                }
                _ => panic!("tab member is an object"),
            }
        }
        _ => panic!("response is an object"),
    }
}
