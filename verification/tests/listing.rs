use warp_app::local_control::{
    pane_inspect, pane_list_entries, pane_rows, session_inspect, session_list_entries,
    session_rows, single_entry, tab_inspect, tab_list_entries, tab_rows, window_inspect,
    window_list_ids, window_rows, ActionKind, AppSnapshot, ErrorCode, PaneSelector, PaneSnapshot,
    PaneTarget, SessionSelector, SessionTarget, TabSelector, TabSnapshot, TabTarget,
    TargetSelector, WindowId, WindowSelector, WindowSnapshot, WindowTarget, WorkspaceSnapshot,
};

fn pane(id: &str, focused: bool, active_session: bool, terminal: bool) -> PaneSnapshot {
    PaneSnapshot {
        pane_id: id.to_string(),
        is_focused: focused,
        is_active_session: active_session,
        has_terminal_session: terminal,
    }
}

fn tab(id: &str, title: &str, panes: Vec<PaneSnapshot>) -> TabSnapshot {
    TabSnapshot { tab_id: id.to_string(), title: title.to_string(), panes }
}

fn app() -> AppSnapshot {
    AppSnapshot {
        active_window: Some(WindowId(2)),
        windows: vec![
            WindowSnapshot {
                window_id: WindowId(1),
                workspace: Some(WorkspaceSnapshot {
                    active_tab_index: 0,
                    tabs: vec![tab("t1", "build", vec![pane("p1", true, true, true)])],
                }),
            },
            WindowSnapshot {
                window_id: WindowId(2),
                workspace: Some(WorkspaceSnapshot {
                    active_tab_index: 1,
                    tabs: vec![
                        tab("t2", "logs", vec![pane("p2", true, true, true)]),
                        tab(
                            "t3",
                            "editor",
                            vec![pane("p3", false, false, false), pane("p4", true, true, true), pane("p5", false, false, true)],
                        ),
                    ],
                }),
            },
            WindowSnapshot { window_id: WindowId(3), workspace: None },
        ],
    }
}

fn select(window: Option<WindowTarget>, tab: Option<TabTarget>, pane: Option<PaneTarget>, session: Option<SessionTarget>) -> TargetSelector {
    let mut target = TargetSelector::default();
    target.window = window;
    target.tab = tab;
    target.pane = pane;
    target.session = session;
    target
}

#[test]
fn window_listing_selects_all_active_or_by_id() {
    let app = app();
    let all = window_list_ids(&TargetSelector::default(), &app).unwrap();
    assert_eq!(all, vec![WindowId(1), WindowId(2), WindowId(3)]);
    let active = window_list_ids(&select(Some(WindowTarget::Active), None, None, None), &app).unwrap();
    assert_eq!(active, vec![WindowId(2)]);
    let by_id = window_list_ids(&select(Some(WindowTarget::Id { id: WindowSelector("3".to_string()) }), None, None, None), &app).unwrap();
    assert_eq!(by_id, vec![WindowId(3)]);
    let err = window_list_ids(&select(Some(WindowTarget::Id { id: WindowSelector("9".to_string()) }), None, None, None), &app).unwrap_err();
    assert_eq!(err.code, ErrorCode::StaleTarget);
    assert_eq!(err.message, "window.list cannot resolve the requested window id");
    let err = window_list_ids(&select(Some(WindowTarget::Index { index: 0 }), None, None, None), &app).unwrap_err();
    assert_eq!(err.code, ErrorCode::InvalidSelector);
    let err = window_list_ids(&select(None, Some(TabTarget::Active), None, None), &app).unwrap_err();
    assert_eq!(err.message, "window.list does not accept tab, pane, or session selectors");

    let rows = window_rows(&app, &all);
    assert_eq!(rows[1].window_id, "2");
    assert!(rows[1].is_active && !rows[0].is_active);
    assert_eq!(rows[1].title.as_deref(), Some("editor"));
    assert_eq!(rows[2].title, None);
}

#[test]
fn tab_listing_and_inspection() {
    let app = app();
    let all = tab_list_entries(&TargetSelector::default(), &app).unwrap();
    assert_eq!(all, vec![(0, 0), (1, 0), (1, 1)]);
    let rows = tab_rows(&app, &all);
    assert_eq!(rows[2].tab_id, "t3");
    assert_eq!(rows[2].window_id, "2");
    assert!(rows[2].is_active && rows[0].is_active && !rows[1].is_active);
    assert_eq!(rows[1].title, "logs");

    let active = tab_list_entries(&select(None, Some(TabTarget::Active), None, None), &app).unwrap();
    assert_eq!(active, vec![(1, 1)]);
    let by_index = tab_list_entries(&select(None, Some(TabTarget::Index { index: 0 }), None, None), &app).unwrap();
    assert_eq!(by_index, vec![(1, 0)]);
    let by_id = tab_list_entries(&select(None, Some(TabTarget::Id { id: TabSelector("t1".to_string()) }), None, None), &app).unwrap();
    assert_eq!(by_id, vec![(0, 0)]);
    let err = tab_list_entries(&select(None, Some(TabTarget::Id { id: TabSelector("nope".to_string()) }), None, None), &app).unwrap_err();
    assert_eq!(err.code, ErrorCode::StaleTarget);
    assert_eq!(err.message, "tab.list cannot resolve the requested tab id");
    let err = tab_list_entries(&select(None, Some(TabTarget::Title { title: "logs".to_string() }), None, None), &app).unwrap_err();
    assert_eq!(err.code, ErrorCode::InvalidSelector);
    let err = tab_list_entries(&select(None, None, Some(PaneTarget::Active), None), &app).unwrap_err();
    assert_eq!(err.message, "tab.list does not accept pane or session selectors");

    assert_eq!(tab_inspect(&TargetSelector::default(), &app).unwrap(), (1, 1));
    let err = tab_inspect(&select(Some(WindowTarget::Id { id: WindowSelector("3".to_string()) }), Some(TabTarget::Id { id: TabSelector("t1".to_string()) }), None, None), &app).unwrap_err();
    assert_eq!(err.code, ErrorCode::StaleTarget);
}

#[test]
fn pane_and_session_listing_and_inspection() {
    let app = app();
    let panes = pane_list_entries(&select(None, Some(TabTarget::Active), None, None), &app).unwrap();
    assert_eq!(panes, vec![(1, 1, 0), (1, 1, 1), (1, 1, 2)]);
    let rows = pane_rows(&app, &panes);
    assert_eq!(rows[1].pane_id, "p4");
    assert_eq!(rows[1].tab_id, "t3");
    assert!(rows[1].is_active && !rows[0].is_active);
    assert!(!rows[0].has_terminal_session);

    let focused = pane_list_entries(&select(None, None, Some(PaneTarget::Active), None), &app).unwrap();
    assert_eq!(focused, vec![(1, 1, 1)]);
    let by_index = pane_list_entries(&select(None, None, Some(PaneTarget::Index { index: 2 }), None), &app).unwrap();
    assert_eq!(by_index, vec![(1, 1, 2)]);
    let err = pane_list_entries(&select(None, None, Some(PaneTarget::Id { id: PaneSelector("p9".to_string()) }), None), &app).unwrap_err();
    assert_eq!(err.code, ErrorCode::StaleTarget);
    let err = pane_list_entries(&select(None, None, None, Some(SessionTarget::Active)), &app).unwrap_err();
    assert_eq!(err.message, "pane.list does not accept session selectors");
    assert_eq!(pane_inspect(&TargetSelector::default(), &app).unwrap(), (1, 1, 1));

    let sessions = session_list_entries(&TargetSelector::default(), &app).unwrap();
    assert_eq!(sessions, vec![(0, 0, 0), (1, 0, 0), (1, 1, 1), (1, 1, 2)]);
    let rows = session_rows(&app, &sessions);
    assert_eq!(rows[2].session_id, "p4");
    assert!(rows[2].is_active && !rows[3].is_active);
    let active = session_list_entries(&select(None, None, None, Some(SessionTarget::Active)), &app).unwrap();
    assert_eq!(active, vec![(1, 1, 1)]);
    let err = session_list_entries(&select(None, None, None, Some(SessionTarget::Id { id: SessionSelector("p3".to_string()) })), &app).unwrap_err();
    assert_eq!(err.code, ErrorCode::StaleTarget);
    assert_eq!(err.message, "session.list cannot resolve the requested session id");
    assert_eq!(session_inspect(&TargetSelector::default(), &app).unwrap(), (1, 1, 1));
}

#[test]
fn inspections_need_exactly_one_target() {
    let app = app();
    assert_eq!(window_inspect(&TargetSelector::default(), &app).unwrap(), WindowId(2));
    let mut no_active = app.clone();
    no_active.active_window = None;
    let err = window_inspect(&TargetSelector::default(), &no_active).unwrap_err();
    assert_eq!(err.code, ErrorCode::MissingTarget);
    assert_eq!(err.message, "window.list requires an active Warp window");

    assert_eq!(single_entry(vec![7], ActionKind::TabInspect).unwrap(), 7);
    let err = single_entry(Vec::<u8>::new(), ActionKind::TabInspect).unwrap_err();
    assert_eq!(err.code, ErrorCode::MissingTarget);
    assert_eq!(err.message, "tab.inspect could not resolve a target");
    let err = single_entry(vec![1, 2], ActionKind::PaneInspect).unwrap_err();
    assert_eq!(err.code, ErrorCode::AmbiguousTarget);
    assert_eq!(err.message, "pane.inspect resolved multiple targets");
}
