use warp_app::local_control::{
    app_state_command, is_allowlisted_setting_key, list_history_entries, rejected_setting_key,
    resolve_session_selector, setting_keys_in_namespace, tab_activation_index,
    validate_active_terminal_target, ActionKind, ActionParams, AppStateCommand, ControlDirection,
    ErrorCode, FileOpenParams, HistoryEntry, InputMode, LocalControlConfirmationAction,
    LocalControlConfirmationDialog, LocalControlConfirmationPrompt, PaneDirection,
    PaneGroupCommand, PaneSelector, PaneTarget, SessionSelector, SessionTarget, TabActivationMode,
    TabCloseMode, TabSelector, TabTarget, TargetSelector, WindowTarget, WorkspaceCommand,
    resolve_index_from_ids, target_window_id_for_target, validate_staged_input_text, WindowId,
    WindowSelector,
};

fn no_target() -> TargetSelector {
    TargetSelector::default()
}

#[test]
fn window_and_tab_actions_map_to_workspace_commands() {
    assert!(matches!(app_state_command(ActionKind::AppFocus, ActionParams::Empty, &no_target()).unwrap(), AppStateCommand::FocusWindow));
    assert!(matches!(
        app_state_command(ActionKind::WindowCreate, ActionParams::Empty, &no_target()).unwrap(),
        AppStateCommand::Workspace(WorkspaceCommand::AddWindow)
    ));
    assert!(matches!(
        app_state_command(ActionKind::TabActivate, ActionParams::TabActivate { mode: TabActivationMode::Last }, &no_target()).unwrap(),
        AppStateCommand::Workspace(WorkspaceCommand::ActivateLastTab)
    ));
    let target = TargetSelector { tab: Some(TabTarget::Index { index: 2 }), ..TargetSelector::default() };
    assert!(matches!(
        app_state_command(ActionKind::TabActivate, ActionParams::Empty, &target).unwrap(),
        AppStateCommand::Workspace(WorkspaceCommand::ActivateTargetTab { tab: Some(TabTarget::Index { index: 2 }) })
    ));
    assert!(matches!(
        app_state_command(ActionKind::TabMove, ActionParams::Direction { direction: ControlDirection::Previous }, &no_target()).unwrap(),
        AppStateCommand::Workspace(WorkspaceCommand::MoveActiveTabLeft)
    ));
    let err = app_state_command(ActionKind::TabMove, ActionParams::Direction { direction: ControlDirection::Up }, &no_target()).unwrap_err();
    assert_eq!(err.code, ErrorCode::InvalidParams);
    assert_eq!(err.message, "tab.move only accepts left, right, previous, or next");
    assert!(matches!(
        app_state_command(ActionKind::TabClose, ActionParams::Empty, &no_target()).unwrap(),
        AppStateCommand::Workspace(WorkspaceCommand::CloseActiveTab)
    ));
    assert!(matches!(
        app_state_command(ActionKind::TabClose, ActionParams::TabClose { mode: TabCloseMode::RightOf }, &no_target()).unwrap(),
        AppStateCommand::Workspace(WorkspaceCommand::CloseTabsRightActiveTab)
    ));
    match app_state_command(ActionKind::TabRename, ActionParams::Rename { title: "build".to_owned() }, &no_target()).unwrap() {
        AppStateCommand::Workspace(WorkspaceCommand::SetActiveTabName(t)) => assert_eq!(t, "build"),
        other => panic!("unexpected {other:?}"),
    }
    let err = app_state_command(ActionKind::TabRename, ActionParams::Empty, &no_target()).unwrap_err();
    assert_eq!(err.message, "tab.rename received parameters with the wrong shape");
}

#[test]
fn pane_actions_map_to_pane_group_commands() {
    assert!(matches!(
        app_state_command(ActionKind::PaneSplit, ActionParams::Direction { direction: ControlDirection::Down }, &no_target()).unwrap(),
        AppStateCommand::PaneGroup(PaneGroupCommand::Add(PaneDirection::Down))
    ));
    assert_eq!(
        app_state_command(ActionKind::PaneSplit, ActionParams::Direction { direction: ControlDirection::Next }, &no_target()).unwrap_err().message,
        "pane.split only accepts left, right, up, or down"
    );
    assert!(matches!(
        app_state_command(ActionKind::PaneNavigate, ActionParams::Direction { direction: ControlDirection::Previous }, &no_target()).unwrap(),
        AppStateCommand::PaneGroup(PaneGroupCommand::NavigatePrev)
    ));
    assert!(matches!(
        app_state_command(ActionKind::PaneResize, ActionParams::Resize { direction: ControlDirection::Left }, &no_target()).unwrap(),
        AppStateCommand::PaneGroup(PaneGroupCommand::ResizeLeft)
    ));
    assert_eq!(app_state_command(ActionKind::PaneFocus, ActionParams::Empty, &no_target()).unwrap_err().code, ErrorCode::InvalidSelector);
    let by_index = TargetSelector { pane: Some(PaneTarget::Index { index: 1 }), ..TargetSelector::default() };
    assert!(matches!(app_state_command(ActionKind::PaneFocus, ActionParams::Empty, &by_index).unwrap(), AppStateCommand::FocusPane { index: Some(1) }));
    let by_id = TargetSelector { pane: Some(PaneTarget::Id { id: PaneSelector("p".to_owned()) }), ..TargetSelector::default() };
    assert_eq!(app_state_command(ActionKind::PaneFocus, ActionParams::Empty, &by_id).unwrap_err().code, ErrorCode::StaleTarget);
    assert!(matches!(app_state_command(ActionKind::PaneUnmaximize, ActionParams::Empty, &no_target()).unwrap(), AppStateCommand::SetPaneMaximized(false)));
}

#[test]
fn input_surface_file_and_drive_actions() {
    match app_state_command(ActionKind::InputReplace, ActionParams::Text { text: "ls".to_owned() }, &no_target()).unwrap() {
        AppStateCommand::Workspace(WorkspaceCommand::InsertInInput { content, replace_buffer }) => {
            assert_eq!(content, "ls");
            assert!(replace_buffer);
        }
        other => panic!("unexpected {other:?}"),
    }
    assert!(matches!(
        app_state_command(ActionKind::InputClear, ActionParams::Empty, &no_target()).unwrap(),
        AppStateCommand::Workspace(WorkspaceCommand::InsertInInput { replace_buffer: true, .. })
    ));
    assert!(matches!(
        app_state_command(ActionKind::InputModeSet, ActionParams::InputMode { mode: InputMode::Agent }, &no_target()).unwrap(),
        AppStateCommand::SetInputMode(InputMode::Agent)
    ));
    match app_state_command(ActionKind::SurfaceSettingsOpen, ActionParams::PageQuery { query: Some("font".to_owned()) }, &no_target()).unwrap() {
        AppStateCommand::Workspace(WorkspaceCommand::ShowSettingsPageWithSearch(q)) => assert_eq!(q, "font"),
        other => panic!("unexpected {other:?}"),
    }
    assert!(matches!(
        app_state_command(ActionKind::SurfaceCommandPaletteOpen, ActionParams::Empty, &no_target()).unwrap(),
        AppStateCommand::Workspace(WorkspaceCommand::OpenCommandPalette { query: None })
    ));
    let params = FileOpenParams { path: "/tmp/a.rs".to_owned(), line: None, column: Some(4) };
    match app_state_command(ActionKind::FileOpen, ActionParams::FileOpen(params), &no_target()).unwrap() {
        AppStateCommand::Workspace(WorkspaceCommand::OpenFileInNewTab { path, line, column }) => {
            assert_eq!(path, "/tmp/a.rs");
            assert_eq!(line, None);
            assert_eq!(column, None, "a column without a line is ignored");
        }
        other => panic!("unexpected {other:?}"),
    }
    let params = FileOpenParams { path: "/tmp/a.rs".to_owned(), line: Some(10), column: Some(4) };
    assert!(matches!(
        app_state_command(ActionKind::FileOpen, ActionParams::FileOpen(params), &no_target()).unwrap(),
        AppStateCommand::Workspace(WorkspaceCommand::OpenFileInNewTab { line: Some(10), column: Some(4), .. })
    ));
    match app_state_command(ActionKind::DriveNotebookOpen, ActionParams::DriveObjectId { id: "abc".to_owned() }, &no_target()).unwrap() {
        AppStateCommand::OpenDriveObject { id, how } => {
            assert_eq!(id, "abc");
            assert_eq!(how, ActionKind::DriveNotebookOpen);
        }
        other => panic!("unexpected {other:?}"),
    }
    let err = app_state_command(ActionKind::ThemeGet, ActionParams::Empty, &no_target()).unwrap_err();
    assert_eq!(err.code, ErrorCode::UnsupportedAction);
    assert_eq!(err.message, "theme.get is not an app-state handler action");
}

#[test]
fn tab_activation_falls_back_to_the_active_tab() {
    assert_eq!(tab_activation_index(&Some(TabTarget::Index { index: 1 }), 3, 0), 1);
    assert_eq!(tab_activation_index(&Some(TabTarget::Index { index: 5 }), 3, 2), 2);
    assert_eq!(tab_activation_index(&Some(TabTarget::Id { id: TabSelector("t".to_owned()) }), 3, 2), 2);
    assert_eq!(tab_activation_index(&None, 3, 1), 1);
}

#[test]
fn terminal_reads_need_active_targets() {
    validate_active_terminal_target(ActionKind::InputGet, &no_target()).expect("no selectors");
    let t = TargetSelector { window: Some(WindowTarget::Active), tab: Some(TabTarget::Active), pane: Some(PaneTarget::Active), ..TargetSelector::default() };
    validate_active_terminal_target(ActionKind::InputGet, &t).expect("active selectors");
    let t = TargetSelector { tab: Some(TabTarget::Id { id: TabSelector("x".to_owned()) }), ..TargetSelector::default() };
    let err = validate_active_terminal_target(ActionKind::HistoryList, &t).unwrap_err();
    assert_eq!(err.code, ErrorCode::StaleTarget);
    assert_eq!(err.message, "history.list cannot resolve the requested tab id");
    let t = TargetSelector { pane: Some(PaneTarget::Index { index: 0 }), ..TargetSelector::default() };
    assert_eq!(validate_active_terminal_target(ActionKind::BlockList, &t).unwrap_err().code, ErrorCode::InvalidSelector);
}

#[test]
fn session_selectors_resolve_to_session_ids() {
    assert_eq!(resolve_session_selector(&None, Some(7), ActionKind::BlockList).unwrap(), 7);
    assert_eq!(resolve_session_selector(&Some(SessionTarget::Active), None, ActionKind::BlockList).unwrap_err().code, ErrorCode::MissingTarget);
    let id = |s: &str| Some(SessionTarget::Id { id: SessionSelector(s.to_owned()) });
    assert_eq!(resolve_session_selector(&id("42"), None, ActionKind::BlockGet).unwrap(), 42);
    assert_eq!(resolve_session_selector(&id("+42"), None, ActionKind::BlockGet).unwrap(), 42);
    assert_eq!(resolve_session_selector(&id("18446744073709551615"), None, ActionKind::BlockGet).unwrap(), u64::MAX);
    assert_eq!(resolve_session_selector(&id("18446744073709551616"), None, ActionKind::BlockGet).unwrap_err().code, ErrorCode::InvalidSelector);
    assert_eq!(resolve_session_selector(&id("x1"), None, ActionKind::BlockGet).unwrap_err().code, ErrorCode::InvalidSelector);
    assert_eq!(resolve_session_selector(&id(""), None, ActionKind::BlockGet).unwrap_err().code, ErrorCode::InvalidSelector);
}

#[test]
fn history_listing_keeps_the_last_entries() {
    let commands: Vec<HistoryEntry> = ["ls", "cd /", "pwd"]
        .iter()
        .map(|c| HistoryEntry { command: c.to_string(), cwd: Some("/home".to_owned()) })
        .collect();
    let all = list_history_entries(9, &commands, None);
    assert_eq!(all.len(), 3);
    assert_eq!(all[0].entry_id, "history:9:0");
    let last = list_history_entries(9, &commands, Some(2));
    assert_eq!(last.len(), 2);
    assert_eq!(last[0].entry_id, "history:9:1");
    assert_eq!(last[1].command, "pwd");
    assert_eq!(list_history_entries(9, &commands, Some(10)).len(), 3);
    assert_eq!(list_history_entries(9, &commands, Some(0)).len(), 0);
}

#[test]
fn setting_keys_are_allowlisted() {
    assert!(is_allowlisted_setting_key("appearance.text.font_size"));
    assert!(!is_allowlisted_setting_key("appearance.text"));
    assert_eq!(
        setting_keys_in_namespace(Some("appearance.themes")),
        vec![
            "appearance.themes.dark_theme",
            "appearance.themes.light_theme",
            "appearance.themes.system_theme",
            "appearance.themes.theme",
        ]
    );
    assert_eq!(setting_keys_in_namespace(None).len(), 10);
    assert!(setting_keys_in_namespace(Some("zzz")).is_empty());
    let err = rejected_setting_key("secret.key");
    assert_eq!(err.code, ErrorCode::NotAllowlisted);
    assert_eq!(err.message, "secret.key is not an allowlisted local-control setting");
}

fn prompt(id: u128) -> LocalControlConfirmationPrompt {
    LocalControlConfirmationPrompt { confirmation_id: id, action: ActionKind::TabClose, target_summary: "tab 1".to_owned() }
}

#[test]
fn confirmation_dialog_shows_one_prompt_and_resolves_it_once() {
    let mut dialog = LocalControlConfirmationDialog::new();
    assert!(dialog.show(prompt(1)));
    assert!(!dialog.show(prompt(2)));
    assert!(dialog.is_visible());
    dialog.dismiss(2);
    assert!(dialog.is_visible());
    assert_eq!(dialog.handle_action(LocalControlConfirmationAction::Approve), Some((1, true)));
    assert_eq!(dialog.handle_action(LocalControlConfirmationAction::Approve), None);
    assert!(dialog.show(prompt(3)));
    dialog.dismiss(3);
    assert!(!dialog.is_visible());
    assert!(dialog.show(prompt(4)));
    assert_eq!(dialog.handle_action(LocalControlConfirmationAction::Deny), Some((4, false)));
}

#[test]
fn window_selectors_resolve_against_the_open_windows() {

    let ids = [WindowId(9), WindowId(10), WindowId(2)];
    // Ordered by their text: "10", "2", "9".
    assert_eq!(resolve_index_from_ids(&ids, 0, ActionKind::WindowFocus).unwrap(), WindowId(10));
    assert_eq!(resolve_index_from_ids(&ids, 2, ActionKind::WindowFocus).unwrap(), WindowId(9));
    assert_eq!(resolve_index_from_ids(&ids, 3, ActionKind::WindowFocus).unwrap_err().code, ErrorCode::MissingTarget);

    let by_id = TargetSelector { window: Some(WindowTarget::Id { id: WindowSelector("2".to_owned()) }), ..TargetSelector::default() };
    assert_eq!(target_window_id_for_target(&by_id, None, &ids, ActionKind::WindowClose).unwrap(), WindowId(2));
    let stale = TargetSelector { window: Some(WindowTarget::Id { id: WindowSelector("5".to_owned()) }), ..TargetSelector::default() };
    assert_eq!(target_window_id_for_target(&stale, None, &ids, ActionKind::WindowClose).unwrap_err().code, ErrorCode::StaleTarget);
    let by_title = TargetSelector { window: Some(WindowTarget::Title { title: "w".to_owned() }), ..TargetSelector::default() };
    assert_eq!(target_window_id_for_target(&by_title, None, &ids, ActionKind::WindowClose).unwrap_err().code, ErrorCode::InvalidSelector);
    assert_eq!(target_window_id_for_target(&no_target(), Some(WindowId(10)), &ids, ActionKind::WindowClose).unwrap(), WindowId(10));
    assert_eq!(target_window_id_for_target(&no_target(), None, &ids, ActionKind::WindowClose).unwrap_err().code, ErrorCode::AmbiguousTarget);
}

#[test]
fn staged_input_rejects_line_breaks_and_control_sequences() {
    assert!(validate_staged_input_text(ActionKind::InputInsert, "safe staged text").is_ok());

    for text in ["line\nbreak", "line\rbreak", "tab\tbreak", "\u{1b}[31m"] {
        let error = validate_staged_input_text(ActionKind::InputInsert, text).err();
        assert!(error.is_some_and(|error| error.code == ErrorCode::InvalidParams));
    }
}

#[test]
fn staged_input_commands_refuse_control_characters() {
    let err = app_state_command(ActionKind::InputInsert, ActionParams::Text { text: "line\nbreak".to_owned() }, &no_target())
        .unwrap_err();
    assert_eq!(err.code, ErrorCode::InvalidParams);
    assert_eq!(err.message, "input.insert text must not contain line breaks or control characters");
    let err = app_state_command(ActionKind::InputReplace, ActionParams::Text { text: "\u{1b}[31m".to_owned() }, &no_target())
        .unwrap_err();
    assert_eq!(err.code, ErrorCode::InvalidParams);
    assert!(app_state_command(ActionKind::InputInsert, ActionParams::Text { text: "échelle ok".to_owned() }, &no_target()).is_ok());
}
