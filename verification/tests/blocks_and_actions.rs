use warp_app::JsonValue;
use warp_app::local_control::{
    ack_response, action_kind_for_name, block_get_result, block_list_result, block_summary,
    open_file_summaries, validate_instance_metadata_read_target, ActionKind, ErrorCode,
    TabTarget, TargetSelector, TerminalBlock,
};

fn block(id: &str, session: Option<u64>, command: &str, output: &str) -> TerminalBlock {
    TerminalBlock {
        id: id.to_string(),
        session_id: session,
        command: command.to_string(),
        output: output.to_string(),
    }
}

fn sample() -> Vec<TerminalBlock> {
    vec![
        block("b0", Some(7), "ls", "a b"),
        block("b1", Some(8), "pwd", "/"),
        block("b2", None, "echo", "x"),
        block("b3", Some(7), "", ""),
        block("b4", Some(7), "cargo test", "ok"),
    ]
}

#[test]
fn block_summaries_report_session_and_command() {
    let summary = block_summary(&sample()[4], 4).unwrap();
    assert_eq!(summary.block_id, "b4");
    assert_eq!(summary.session_id, "7");
    assert_eq!(summary.index, 4);
    assert_eq!(summary.command, Some("cargo test".to_string()));
    assert_eq!(block_summary(&sample()[3], 3).unwrap().command, None);
    assert!(block_summary(&sample()[2], 2).is_none());
}

#[test]
fn block_listing_keeps_the_latest_blocks_of_the_session() {
    let blocks = sample();
    let all = block_list_result(&blocks, 7, false, None).unwrap();
    let ids: Vec<&str> = all.iter().map(|b| b.block_id.as_str()).collect();
    assert_eq!(ids, vec!["b0", "b3", "b4"]);
    let indices: Vec<u32> = all.iter().map(|b| b.index).collect();
    assert_eq!(indices, vec![0, 3, 4]);

    let latest = block_list_result(&blocks, 7, false, Some(2)).unwrap();
    let ids: Vec<&str> = latest.iter().map(|b| b.block_id.as_str()).collect();
    assert_eq!(ids, vec!["b3", "b4"]);
    assert_eq!(block_list_result(&blocks, 7, false, Some(10)).unwrap().len(), 3);
    assert_eq!(block_list_result(&blocks, 7, false, Some(0)).unwrap().len(), 0);

    assert!(block_list_result(&blocks, 9, false, None).unwrap().is_empty());
    let err = block_list_result(&blocks, 9, true, None).unwrap_err();
    assert_eq!(err.code, ErrorCode::StaleTarget);
    assert_eq!(err.message, "block.list cannot resolve the requested session id");
}

#[test]
fn block_lookup_needs_the_id_in_the_session() {
    let blocks = sample();
    let (summary, output) = block_get_result(&blocks, 8, "b1").unwrap();
    assert_eq!(summary.index, 1);
    assert_eq!(output, "/");
    let err = block_get_result(&blocks, 7, "b1").unwrap_err();
    assert_eq!(err.code, ErrorCode::StaleTarget);
    assert_eq!(err.message, "block.get cannot resolve the requested block id");
    assert!(block_get_result(&blocks, 7, "b2").is_err());
}

#[test]
fn action_names_resolve_to_actions() {
    assert_eq!(action_kind_for_name("tab.create").unwrap(), ActionKind::TabCreate);
    assert_eq!(action_kind_for_name("drive.list").unwrap(), ActionKind::DriveList);
    for name in ["app.ping", "window.list", "block.get", "input.get"] {
        assert_eq!(action_kind_for_name(name).unwrap().as_str(), name);
    }
    let err = action_kind_for_name("tab.explode").unwrap_err();
    assert_eq!(err.code, ErrorCode::NotAllowlisted);
    assert_eq!(err.message, "tab.explode is not an allowlisted local-control action");
}

#[test]
fn open_files_are_reported_once_in_path_order() {
    let paths = vec![
        "/repo/src/main.rs".to_string(),
        "/repo/Cargo.toml".to_string(),
        "/repo/src/main.rs".to_string(),
        "/repo/README.md".to_string(),
        "/repo/Cargo.toml".to_string(),
    ];
    let files = open_file_summaries(paths);
    let listed: Vec<&str> = files.iter().map(|f| f.path.as_str()).collect();
    assert_eq!(listed, vec!["/repo/Cargo.toml", "/repo/README.md", "/repo/src/main.rs"]);
    assert!(files.iter().all(|f| f.tab_id.is_none()));
    assert!(open_file_summaries(Vec::new()).is_empty());
}

#[test]
fn metadata_reads_refuse_target_selectors() {
    assert!(validate_instance_metadata_read_target(ActionKind::FileList, &TargetSelector::default()).is_ok());
    let mut target = TargetSelector::default();
    target.tab = Some(TabTarget::Active);
    let err = validate_instance_metadata_read_target(ActionKind::FileList, &target).unwrap_err();
    assert_eq!(err.code, ErrorCode::InvalidSelector);
    assert_eq!(
        err.message,
        "file.list does not accept target selectors; it reads app-state metadata already represented in Warp"
    );
}

#[test]
fn mutation_acknowledgements_name_the_action() {
    match ack_response(Some("inst-1"), ActionKind::TabClose) {
        JsonValue::Object(members) => {
            assert_eq!(members.len(), 3);
            assert_eq!(members[0].0, "action");
            assert!(matches!(&members[0].1, JsonValue::String(s) if s == "tab.close"));
            assert!(matches!(members[1].1, JsonValue::Bool(true)));
            assert!(matches!(&members[2].1, JsonValue::String(s) if s == "inst-1"));
        }
        other => panic!("unexpected reply {:?}", other),
    }
    match ack_response(None, ActionKind::PaneClose) {
        JsonValue::Object(members) => assert!(matches!(members[2].1, JsonValue::Null)),
        other => panic!("unexpected reply {:?}", other),
    }
}
