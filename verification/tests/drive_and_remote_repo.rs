use warp_app::local_control::{
    control_drive_object_type, drive_list_objects, drive_object_content, drive_object_get_result,
    drive_object_type_rank, drive_type_mismatch_error, drive_unsupported_type_error,
    resolve_drive_object, validate_drive_target, ActionKind, CloudObjectEntry, CloudObjectKind,
    DriveObjectBody, DriveObjectType, ErrorCode, SessionTarget, TargetSelector, WindowTarget,
};
use warp_app::{
    DiffStats, GitBranchTrackingStatus, GitStatusMetadata, JsonValue, RemoteGitRepoStatusModel,
    GitHubRepoEffect, GitHubRepoEvent, RemoteGitHubRepoModel, RemoteRepoEffect, RemoteServerManagerEvent,
};

fn entry(kind: CloudObjectKind, id: &str, name: &str) -> CloudObjectEntry {
    CloudObjectEntry { kind, id: id.to_string(), name: name.to_string() }
}

#[test]
fn drive_type_ranks_follow_listing_order() {
    let order = [
        DriveObjectType::Workflow,
        DriveObjectType::Prompt,
        DriveObjectType::Notebook,
        DriveObjectType::EnvVarCollection,
        DriveObjectType::Folder,
        DriveObjectType::AiFact,
        DriveObjectType::McpServer,
        DriveObjectType::Space,
        DriveObjectType::Trash,
    ];
    for (i, t) in order.iter().enumerate() {
        assert_eq!(drive_object_type_rank(*t) as usize, i);
    }
}

#[test]
fn drive_requests_refuse_terminal_selectors() {
    assert!(validate_drive_target(&TargetSelector::default(), ActionKind::DriveList).is_ok());
    let mut target = TargetSelector::default();
    target.window = Some(WindowTarget::Active);
    let err = validate_drive_target(&target, ActionKind::DriveList).unwrap_err();
    assert_eq!(err.code, ErrorCode::InvalidSelector);
    assert_eq!(err.message, "drive.list does not accept window, tab, pane, or session selectors");
    let mut target = TargetSelector::default();
    target.session = Some(SessionTarget::Active);
    let err = validate_drive_target(&target, ActionKind::DriveInspect).unwrap_err();
    assert_eq!(err.message, "drive.inspect does not accept window, tab, pane, or session selectors");
}

#[test]
fn cloud_objects_map_to_drive_types() {
    assert_eq!(control_drive_object_type(CloudObjectKind::Workflow { agent_mode: true }), Some(DriveObjectType::Prompt));
    assert_eq!(control_drive_object_type(CloudObjectKind::Workflow { agent_mode: false }), Some(DriveObjectType::Workflow));
    assert_eq!(control_drive_object_type(CloudObjectKind::TemplatableMcpServer), Some(DriveObjectType::McpServer));
    assert_eq!(control_drive_object_type(CloudObjectKind::McpServer), Some(DriveObjectType::McpServer));
    assert_eq!(control_drive_object_type(CloudObjectKind::AiFact), Some(DriveObjectType::AiFact));
    assert_eq!(control_drive_object_type(CloudObjectKind::Other), None);
}

#[test]
fn drive_listing_filters_and_orders_by_rank_name_and_id() {
    let objects = vec![
        entry(CloudObjectKind::Folder, "f1", "Alpha"),
        entry(CloudObjectKind::Notebook, "n2", "Beta"),
        entry(CloudObjectKind::Other, "x", "Hidden"),
        entry(CloudObjectKind::Notebook, "n1", "Beta"),
        entry(CloudObjectKind::Workflow { agent_mode: false }, "w1", "Zed"),
        entry(CloudObjectKind::Notebook, "n3", "Aardvark"),
        entry(CloudObjectKind::Workflow { agent_mode: true }, "p1", "Prompt"),
    ];
    let listing = drive_list_objects(&objects, None);
    let ids: Vec<&str> = listing.iter().map(|s| s.id.as_str()).collect();
    assert_eq!(ids, vec!["w1", "p1", "n3", "n1", "n2", "f1"]);

    let notebooks = drive_list_objects(&objects, Some(DriveObjectType::Notebook));
    let ids: Vec<&str> = notebooks.iter().map(|s| s.id.as_str()).collect();
    assert_eq!(ids, vec!["n3", "n1", "n2"]);
    assert!(notebooks.iter().all(|s| s.object_type == DriveObjectType::Notebook));

    assert!(drive_list_objects(&objects, Some(DriveObjectType::Trash)).is_empty());
}

#[test]
fn drive_inspection_resolves_ids_and_reads_content() {
    let objects = vec![entry(CloudObjectKind::Folder, "f1", "Alpha"), entry(CloudObjectKind::Notebook, "n1", "Notes")];
    assert_eq!(resolve_drive_object(&objects, "n1").unwrap(), 1);
    let err = resolve_drive_object(&objects, "missing").unwrap_err();
    assert_eq!(err.code, ErrorCode::StaleTarget);
    assert_eq!(err.message, "drive.inspect could not resolve the requested Drive object id");

    let (summary, content) = drive_object_get_result(
        &objects[0],
        DriveObjectBody::Folder { name: "Alpha".to_string(), is_open: true, is_warp_pack: false },
    )
    .unwrap();
    assert_eq!(summary.object_type, DriveObjectType::Folder);
    assert_eq!(summary.id, "f1");
    match content {
        JsonValue::Object(members) => {
            assert_eq!(members.len(), 3);
            assert_eq!(members[0].0, "name");
            assert!(matches!(&members[0].1, JsonValue::String(s) if s == "Alpha"));
            assert_eq!(members[1].0, "is_open");
            assert!(matches!(members[1].1, JsonValue::Bool(true)));
            assert!(matches!(members[2].1, JsonValue::Bool(false)));
        }
        other => panic!("unexpected content {:?}", other),
    }

    let content = drive_object_content(
        CloudObjectKind::Notebook,
        DriveObjectBody::Notebook {
            title: "Notes".to_string(),
            data: "# hi".to_string(),
            ai_document_id: None,
            conversation_id: Some("c1".to_string()),
        },
    )
    .unwrap();
    match content {
        JsonValue::Object(members) => {
            let keys: Vec<&str> = members.iter().map(|(k, _)| k.as_str()).collect();
            assert_eq!(keys, vec!["title", "data", "ai_document_id", "conversation_id"]);
            assert!(matches!(members[2].1, JsonValue::Null));
            assert!(matches!(&members[3].1, JsonValue::String(s) if s == "c1"));
        }
        other => panic!("unexpected content {:?}", other),
    }

    let err = drive_object_content(CloudObjectKind::Notebook, DriveObjectBody::Opaque).unwrap_err();
    assert_eq!(err.code, ErrorCode::TargetStateConflict);
    let err = drive_object_content(CloudObjectKind::AiFact, DriveObjectBody::Opaque).unwrap_err();
    assert_eq!(err.code, ErrorCode::UnsupportedAction);
    let err = drive_object_get_result(&entry(CloudObjectKind::Other, "o", "O"), DriveObjectBody::Opaque).unwrap_err();
    assert_eq!(err.code, ErrorCode::UnsupportedAction);
    assert_eq!(err.message, "drive.inspect does not support this Drive object type");
    let workflow = JsonValue::Object(vec![("name".to_string(), JsonValue::String("w".to_string()))]);
    let content = drive_object_content(CloudObjectKind::Workflow { agent_mode: true }, DriveObjectBody::Workflow(workflow)).unwrap();
    assert!(matches!(content, JsonValue::Object(ref m) if m.len() == 1));

    assert_eq!(drive_type_mismatch_error().code, ErrorCode::TargetStateConflict);
    assert_eq!(drive_unsupported_type_error().code, ErrorCode::UnsupportedAction);
}

fn status(branch: &str) -> GitStatusMetadata {
    GitStatusMetadata {
        current_branch_name: branch.to_string(),
        main_branch_name: "main".to_string(),
        stats_against_head: DiffStats { files_changed: 1, total_additions: 2, total_deletions: 3 },
        branch_tracking_status: GitBranchTrackingStatus { ahead: 0, behind: 0, unpushed: 0 },
    }
}

#[test]
fn remote_repo_status_follows_pushes_for_its_repository() {
    let (mut model, effect) = RemoteGitRepoStatusModel::new("host".to_string(), "/repo".to_string());
    assert_eq!(effect, RemoteRepoEffect::RequestSnapshot);
    assert!(model.metadata().is_none());

    let other_repo = RemoteServerManagerEvent::GitStatusPushReceived {
        host_id: "host".to_string(),
        repo_path: "/other".to_string(),
        metadata: Some(status("x")),
    };
    assert_eq!(model.handle_manager_event(&other_repo), RemoteRepoEffect::Ignore);
    assert!(model.metadata().is_none());

    let push = RemoteServerManagerEvent::GitStatusPushReceived {
        host_id: "host".to_string(),
        repo_path: "/repo".to_string(),
        metadata: Some(status("feature")),
    };
    assert_eq!(model.handle_manager_event(&push), RemoteRepoEffect::MetadataChanged);
    assert_eq!(model.metadata().unwrap().current_branch_name, "feature");

    let undecodable = RemoteServerManagerEvent::GitStatusPushReceived {
        host_id: "host".to_string(),
        repo_path: "/repo".to_string(),
        metadata: None,
    };
    assert_eq!(model.handle_manager_event(&undecodable), RemoteRepoEffect::Ignore);
    assert_eq!(model.metadata().unwrap().current_branch_name, "feature");

    let disconnect = RemoteServerManagerEvent::HostDisconnected { host_id: "host".to_string() };
    assert_eq!(model.handle_manager_event(&disconnect), RemoteRepoEffect::Ignore);
    assert_eq!(model.metadata().unwrap().current_branch_name, "feature");

    let reconnect = RemoteServerManagerEvent::HostConnected { host_id: "host".to_string() };
    assert_eq!(model.handle_manager_event(&reconnect), RemoteRepoEffect::RequestSnapshot);
    let other_host = RemoteServerManagerEvent::HostConnected { host_id: "elsewhere".to_string() };
    assert_eq!(model.handle_manager_event(&other_host), RemoteRepoEffect::Ignore);
}

#[test]
fn github_info_pushes_emit_only_when_the_value_moves() {
    let (mut model, effect) = RemoteGitHubRepoModel::new("host".to_string(), "/repo".to_string());
    assert_eq!(effect, GitHubRepoEffect::RequestInfo);
    assert!(model.pr_info().is_none());
    assert!(!model.is_refreshing_pr_info());

    let push = |pr: Option<&str>| RemoteServerManagerEvent::GitHubPrInfoPushReceived {
        host_id: "host".to_string(),
        repo_path: "/repo".to_string(),
        pr_info: pr.map(|p| p.to_string()),
    };
    assert_eq!(model.handle_manager_event(&push(Some("pr#1"))), GitHubRepoEffect::Emit(GitHubRepoEvent::PrInfoChanged));
    assert_eq!(model.pr_info().map(|p| p.as_str()), Some("pr#1"));
    assert_eq!(model.handle_manager_event(&push(Some("pr#1"))), GitHubRepoEffect::Ignore);
    assert_eq!(model.handle_manager_event(&push(None)), GitHubRepoEffect::Emit(GitHubRepoEvent::PrInfoChanged));
    assert!(model.pr_info().is_none());

    let other = RemoteServerManagerEvent::GitHubPrInfoPushReceived {
        host_id: "host".to_string(),
        repo_path: "/elsewhere".to_string(),
        pr_info: Some("pr#9".to_string()),
    };
    assert_eq!(model.handle_manager_event(&other), GitHubRepoEffect::Ignore);
    assert!(model.pr_info().is_none());

    assert_eq!(
        model.apply_repository_info_push(Some("owner/repo".to_string())),
        GitHubRepoEffect::Emit(GitHubRepoEvent::RepositoryInfoChanged)
    );
    assert_eq!(model.apply_repository_info_push(Some("owner/repo".to_string())), GitHubRepoEffect::Ignore);
    assert_eq!(model.repository_info().map(|r| r.as_str()), Some("owner/repo"));

    let disconnect = RemoteServerManagerEvent::HostDisconnected { host_id: "host".to_string() };
    assert_eq!(model.handle_manager_event(&disconnect), GitHubRepoEffect::Ignore);
    assert_eq!(model.repository_info().map(|r| r.as_str()), Some("owner/repo"));
    let reconnect = RemoteServerManagerEvent::HostConnected { host_id: "host".to_string() };
    assert_eq!(model.handle_manager_event(&reconnect), GitHubRepoEffect::RequestInfo);
}
