use warp_app::local_control::{
    admit_request, capabilities, ensure_feature_enabled, ensure_protocol_version,
    ensure_settings_allow_action, outside_warp_control_enabled_for_settings, ping_response,
    reject_target_families, require_active_window_id, resolve_title_from_matches,
    settings_with_mode, validate_action_params, validate_action_target, validate_empty_params,
    validate_file_mutation_target, validate_loopback_headers, validate_request_authority,
    validate_session_cycle_target, validate_tab_create_target, version_response,
    active_or_single_window_id, Action, ActionKind, CredentialGrant, CredentialStore, ErrorCode,
    FileTarget, InvocationContext, LocalControlMode, PaneSelector, PaneTarget, RequestEnvelope,
    RequestHeaders, SessionSelector, SessionTarget, TabSelector, TabTarget, TargetSelector,
    WindowId, WindowSelector, WindowTarget, CREDENTIAL_TTL_MILLIS, MAX_ACTIVE_CREDENTIALS,
    PROTOCOL_VERSION,
};
use warp_app::JsonValue;

fn target(
    window: Option<WindowTarget>,
    tab: Option<TabTarget>,
    pane: Option<PaneTarget>,
) -> TargetSelector {
    TargetSelector { window, tab, pane, ..TargetSelector::default() }
}

fn empty_object() -> JsonValue {
    JsonValue::Object(vec![])
}

fn headers(entries: &[(&str, &str)]) -> RequestHeaders {
    RequestHeaders {
        entries: entries
            .iter()
            .map(|(k, v)| (k.to_string(), Some(v.to_string())))
            .collect(),
    }
}

#[test]
fn tab_create_accepts_default_active_and_window_targets() {
    validate_tab_create_target(&TargetSelector::default()).expect("default target is accepted");
    validate_tab_create_target(&target(
        Some(WindowTarget::Active),
        Some(TabTarget::Active),
        Some(PaneTarget::Active),
    ))
    .expect("active target is accepted");
    validate_tab_create_target(&target(
        Some(WindowTarget::Id { id: WindowSelector("window".to_owned()) }),
        None,
        None,
    ))
    .expect("window id target is accepted");
    validate_tab_create_target(&target(Some(WindowTarget::Index { index: 0 }), None, None))
        .expect("window index target is accepted");
    validate_tab_create_target(&target(
        Some(WindowTarget::Title { title: "window".to_owned() }),
        None,
        None,
    ))
    .expect("window title target is accepted");
}

#[test]
fn tab_create_rejects_concrete_targets() {
    let err = validate_tab_create_target(&target(
        None,
        Some(TabTarget::Id { id: TabSelector("tab".to_owned()) }),
        None,
    ))
    .expect_err("concrete tab target is rejected");
    assert_eq!(err.code, ErrorCode::StaleTarget);

    let err = validate_tab_create_target(&target(
        None,
        None,
        Some(PaneTarget::Id { id: PaneSelector("pane".to_owned()) }),
    ))
    .expect_err("concrete pane target is rejected");
    assert_eq!(err.code, ErrorCode::StaleTarget);
}

#[test]
fn tab_create_rejects_unsupported_selector_forms() {
    let err = validate_tab_create_target(&target(None, Some(TabTarget::Index { index: 0 }), None))
        .expect_err("indexed tab target is rejected");
    assert_eq!(err.code, ErrorCode::InvalidSelector);
}

#[test]
fn tab_create_rejects_session_drive_and_file_selectors() {
    let mut t = TargetSelector::default();
    t.session = Some(SessionTarget::Active);
    assert_eq!(validate_tab_create_target(&t).unwrap_err().code, ErrorCode::InvalidSelector);
    let mut t = TargetSelector::default();
    t.file = Some(FileTarget::Path { path: "/tmp/x".to_owned() });
    assert_eq!(validate_tab_create_target(&t).unwrap_err().code, ErrorCode::InvalidSelector);
}

#[test]
fn capabilities_advertises_only_first_slice_core_actions() {
    assert_eq!(
        capabilities(),
        vec![ActionKind::InstanceList, ActionKind::AppPing, ActionKind::AppVersion, ActionKind::TabCreate]
    );
    for action in capabilities() {
        assert!(action.is_implemented());
    }
    assert!(!ActionKind::TabClose.is_implemented());
}

#[test]
fn loopback_headers_reject_origin_and_host_mismatch() {
    let expected_host = "127.0.0.1:1234";
    validate_loopback_headers(&headers(&[("host", expected_host)]), expected_host)
        .expect("matching host should be accepted");

    let err = validate_loopback_headers(
        &headers(&[("host", expected_host), ("origin", "https://example.com")]),
        expected_host,
    )
    .expect_err("origin should be rejected");
    assert_eq!(err.code, ErrorCode::UnauthorizedLocalClient);

    let err = validate_loopback_headers(&headers(&[("host", "localhost:1234")]), expected_host)
        .expect_err("host mismatch should be rejected");
    assert_eq!(err.code, ErrorCode::UnauthorizedLocalClient);

    let err = validate_loopback_headers(&headers(&[]), expected_host)
        .expect_err("missing host should be rejected");
    assert_eq!(err.code, ErrorCode::UnauthorizedLocalClient);
    assert_eq!(err.message, "Host header is required for local-control requests");

    let non_text = RequestHeaders { entries: vec![("host".to_owned(), None)] };
    assert!(validate_loopback_headers(&non_text, expected_host).is_err());
}

#[test]
fn outside_warp_discovery_requires_everywhere_mode() {
    assert!(!outside_warp_control_enabled_for_settings(&settings_with_mode(LocalControlMode::Disabled)));
    assert!(!outside_warp_control_enabled_for_settings(&settings_with_mode(
        LocalControlMode::EnabledWithinWarp
    )));
    assert!(outside_warp_control_enabled_for_settings(&settings_with_mode(
        LocalControlMode::EnabledEverywhere
    )));
}

#[test]
fn tab_create_requires_active_window() {
    let active = WindowId(1);
    assert_eq!(require_active_window_id(Some(active)).expect("active"), active);
    let err = require_active_window_id(None).expect_err("missing active window");
    assert_eq!(err.code, ErrorCode::MissingTarget);
    assert_eq!(err.message, "tab.create requires an active Warp window");
}

#[test]
fn feature_flag_disabled_denies_local_control() {
    let err = ensure_feature_enabled(false).expect_err("feature flag disabled");
    assert_eq!(err.code, ErrorCode::LocalControlDisabled);
    ensure_feature_enabled(true).expect("feature flag enabled");
}

#[test]
fn outside_warp_requires_everywhere_mode() {
    let settings = settings_with_mode(LocalControlMode::EnabledWithinWarp);
    let err = ensure_settings_allow_action(&settings, InvocationContext::OutsideWarp, ActionKind::TabCreate)
        .expect_err("outside-Warp local control is disabled");
    assert_eq!(err.code, ErrorCode::LocalControlDisabled);
}

#[test]
fn inside_warp_context_is_not_implemented() {
    let settings = settings_with_mode(LocalControlMode::EnabledWithinWarp);
    let err = ensure_settings_allow_action(&settings, InvocationContext::InsideWarp, ActionKind::TabCreate)
        .expect_err("inside-Warp grants are not implemented");
    assert_eq!(err.code, ErrorCode::ExecutionContextNotAllowed);
}

#[test]
fn disabled_mode_denies_inside_warp_context() {
    let settings = settings_with_mode(LocalControlMode::Disabled);
    let err = ensure_settings_allow_action(&settings, InvocationContext::InsideWarp, ActionKind::TabCreate)
        .expect_err("inside-Warp local control is disabled");
    assert_eq!(err.code, ErrorCode::LocalControlDisabled);
    assert_eq!(err.message, "tab.create is disabled for local control");
}

#[test]
fn enabled_everywhere_allows_outside_warp_context() {
    ensure_settings_allow_action(
        &settings_with_mode(LocalControlMode::EnabledEverywhere),
        InvocationContext::OutsideWarp,
        ActionKind::TabCreate,
    )
    .expect("outside-Warp local control is enabled");
}

#[test]
fn tab_create_rejects_malformed_params() {
    let err = validate_action_params(&Action {
        kind: ActionKind::TabCreate,
        params: JsonValue::Object(vec![("unexpected".to_owned(), JsonValue::Bool(true))]),
    })
    .expect_err("tab.create params must be empty");
    assert_eq!(err.code, ErrorCode::InvalidParams);

    validate_action_params(&Action { kind: ActionKind::TabCreate, params: empty_object() })
        .expect("empty tab.create params are accepted");
}

#[test]
fn protocol_version_must_match() {
    ensure_protocol_version(PROTOCOL_VERSION).expect("current version");
    let err = ensure_protocol_version(7).expect_err("other version");
    assert_eq!(err.code, ErrorCode::ProtocolVersionUnsupported);
    assert_eq!(err.message, "unsupported protocol version 7");
}

#[test]
fn title_matches_resolve_one_window() {
    assert_eq!(resolve_title_from_matches(&[WindowId(4)], ActionKind::WindowFocus).unwrap(), WindowId(4));
    assert_eq!(
        resolve_title_from_matches(&[], ActionKind::WindowFocus).unwrap_err().code,
        ErrorCode::MissingTarget
    );
    assert_eq!(
        resolve_title_from_matches(&[WindowId(1), WindowId(2)], ActionKind::WindowFocus).unwrap_err().code,
        ErrorCode::AmbiguousTarget
    );
}

#[test]
fn default_window_is_active_or_only_window() {
    let action = ActionKind::WindowFocus;
    assert_eq!(active_or_single_window_id(Some(WindowId(3)), &[WindowId(1), WindowId(2)], action).unwrap(), WindowId(3));
    assert_eq!(active_or_single_window_id(None, &[WindowId(2)], action).unwrap(), WindowId(2));
    assert_eq!(active_or_single_window_id(None, &[], action).unwrap_err().code, ErrorCode::MissingTarget);
    assert_eq!(
        active_or_single_window_id(None, &[WindowId(1), WindowId(2)], action).unwrap_err().code,
        ErrorCode::AmbiguousTarget
    );
}

#[test]
fn session_cycle_targets() {
    let mut t = TargetSelector::default();
    validate_session_cycle_target(ActionKind::SessionNext, &t).expect("default");
    t.window = Some(WindowTarget::Id { id: WindowSelector("9".to_owned()) });
    assert_eq!(validate_session_cycle_target(ActionKind::SessionNext, &t).unwrap_err().code, ErrorCode::StaleTarget);
    t.window = Some(WindowTarget::Index { index: 1 });
    assert_eq!(validate_session_cycle_target(ActionKind::SessionNext, &t).unwrap_err().code, ErrorCode::InvalidSelector);
    let mut t = TargetSelector::default();
    t.session = Some(SessionTarget::Id { id: SessionSelector("s".to_owned()) });
    assert_eq!(validate_session_cycle_target(ActionKind::SessionNext, &t).unwrap_err().code, ErrorCode::InvalidSelector);
    validate_session_cycle_target(ActionKind::SessionActivate, &t).expect("activate accepts a session id");
}

#[test]
fn target_families_and_empty_params() {
    reject_target_families(ActionKind::TabClose, false, "pane selectors").expect("not rejected");
    let err = reject_target_families(ActionKind::TabClose, true, "pane or session selectors").unwrap_err();
    assert_eq!(err.code, ErrorCode::InvalidSelector);
    assert_eq!(err.message, "tab.close does not accept pane or session selectors");
    validate_empty_params(ActionKind::PaneClose, &empty_object()).expect("empty");
    assert_eq!(validate_empty_params(ActionKind::PaneClose, &JsonValue::Null).unwrap_err().code, ErrorCode::InvalidParams);
}

#[test]
fn file_mutation_target_must_match_path() {
    let mut t = TargetSelector::default();
    validate_file_mutation_target(ActionKind::FileWrite, &t, "/a").expect("no selector");
    t.file = Some(FileTarget::Path { path: "/a".to_owned() });
    validate_file_mutation_target(ActionKind::FileWrite, &t, "/a").expect("same path");
    assert_eq!(
        validate_file_mutation_target(ActionKind::FileWrite, &t, "/b").unwrap_err().code,
        ErrorCode::TargetStateConflict
    );
    t.file = Some(FileTarget::Id { id: "f".to_owned() });
    assert_eq!(validate_file_mutation_target(ActionKind::FileWrite, &t, "/a").unwrap_err().code, ErrorCode::UnsupportedAction);
    let mut t = TargetSelector::default();
    t.tab = Some(TabTarget::Active);
    assert_eq!(validate_file_mutation_target(ActionKind::FileDelete, &t, "/a").unwrap_err().code, ErrorCode::InvalidSelector);
}

fn grant(action: ActionKind, issued_at: i64) -> CredentialGrant {
    CredentialGrant::new("instance".to_owned(), action, InvocationContext::OutsideWarp, issued_at)
}

#[test]
fn inserted_credential_is_found_until_it_expires() {
    let mut store = CredentialStore::new();
    store.insert_credential("secret".to_owned(), grant(ActionKind::AppPing, 1_000), 1_000);
    let found = store.lookup_credential("secret", "instance", 2_000).expect("fresh credential");
    assert_eq!(found.action, ActionKind::AppPing);
    assert_eq!(found.expires_at, 1_000 + CREDENTIAL_TTL_MILLIS);

    let err = store.lookup_credential("secret", "other", 2_000).unwrap_err();
    assert_eq!(err.code, ErrorCode::UnauthorizedLocalClient);

    let err = store.lookup_credential("secret", "instance", 1_000 + CREDENTIAL_TTL_MILLIS).unwrap_err();
    assert_eq!(err.code, ErrorCode::UnauthorizedLocalClient);
    assert!(store.entries.is_empty(), "the expired credential is removed");

    let err = store.lookup_credential("missing", "instance", 0).unwrap_err();
    assert_eq!(err.message, "local-control credential is invalid");
}

#[test]
fn credential_store_evicts_the_oldest_when_full() {
    let mut store = CredentialStore::new();
    for i in 0..MAX_ACTIVE_CREDENTIALS {
        store.insert_credential(format!("s{i}"), grant(ActionKind::AppPing, 100 + i as i64), 100);
    }
    assert_eq!(store.entries.len(), MAX_ACTIVE_CREDENTIALS);
    store.insert_credential("new".to_owned(), grant(ActionKind::AppVersion, 500), 500);
    assert_eq!(store.entries.len(), MAX_ACTIVE_CREDENTIALS);
    assert!(store.entries.iter().all(|(s, _)| s != "s0"));
    assert!(store.entries.iter().any(|(s, _)| s == "new"));
}

#[test]
fn credential_store_drops_expired_grants_on_insert_and_replaces_same_secret() {
    let mut store = CredentialStore::new();
    store.insert_credential("old".to_owned(), grant(ActionKind::AppPing, 0), 0);
    store.insert_credential("a".to_owned(), grant(ActionKind::AppPing, 10), 10);
    store.insert_credential("a".to_owned(), grant(ActionKind::AppVersion, 20), CREDENTIAL_TTL_MILLIS);
    assert_eq!(store.entries.len(), 1);
    assert_eq!(store.entries[0].0, "a");
    assert_eq!(store.entries[0].1.action, ActionKind::AppVersion);
}

fn request(kind: ActionKind, version: u32) -> RequestEnvelope {
    RequestEnvelope {
        request_id: "r1".to_owned(),
        protocol_version: version,
        action: Action { kind, params: empty_object() },
        target: TargetSelector::default(),
    }
}

#[test]
fn requests_are_admitted_only_after_every_check() {
    let everywhere = settings_with_mode(LocalControlMode::EnabledEverywhere);
    let g = grant(ActionKind::AppPing, 0);
    let ok = request(ActionKind::AppPing, PROTOCOL_VERSION);
    admit_request(true, Some("instance"), &ok, &g, &everywhere, 10).expect("admitted");

    assert_eq!(admit_request(false, Some("instance"), &ok, &g, &everywhere, 10).unwrap_err().code, ErrorCode::LocalControlDisabled);
    let old = request(ActionKind::AppPing, PROTOCOL_VERSION + 1);
    assert_eq!(admit_request(true, Some("instance"), &old, &g, &everywhere, 10).unwrap_err().code, ErrorCode::ProtocolVersionUnsupported);
    assert_eq!(admit_request(true, None, &ok, &g, &everywhere, 10).unwrap_err().code, ErrorCode::BridgeUnavailable);
    let other = request(ActionKind::AppVersion, PROTOCOL_VERSION);
    assert_eq!(admit_request(true, Some("instance"), &other, &g, &everywhere, 10).unwrap_err().code, ErrorCode::UnauthorizedLocalClient);
    let within = settings_with_mode(LocalControlMode::EnabledWithinWarp);
    assert_eq!(admit_request(true, Some("instance"), &ok, &g, &within, 10).unwrap_err().code, ErrorCode::LocalControlDisabled);
    let mut targeted = request(ActionKind::AppPing, PROTOCOL_VERSION);
    targeted.target.window = Some(WindowTarget::Active);
    assert_eq!(admit_request(true, Some("instance"), &targeted, &g, &everywhere, 10).unwrap_err().code, ErrorCode::InvalidSelector);
}

#[test]
fn authority_requires_an_implemented_action() {
    let g = grant(ActionKind::TabClose, 0);
    let action = Action { kind: ActionKind::TabClose, params: empty_object() };
    let err = validate_request_authority("instance", &action, &g, 1).unwrap_err();
    assert_eq!(err.code, ErrorCode::UnsupportedAction);
    assert_eq!(err.message, "tab.close is not implemented by this local-control bridge");
    validate_action_target(ActionKind::TabCreate, &target(Some(WindowTarget::Active), None, None)).expect("tab.create accepts a window");
}

#[test]
fn ping_and_version_responses() {
    let ping = ping_response(Some("i-1"));
    match ping {
        JsonValue::Object(members) => {
            assert_eq!(members.len(), 4);
            assert_eq!(members[0].0, "action");
            assert!(matches!(&members[0].1, JsonValue::String(s) if s == "app.ping"));
            assert!(matches!(&members[3].1, JsonValue::Number(n) if n == "1"));
        }
        _ => panic!("ping response is an object"),
    }
    match version_response(None, "stable", "dev.warp.Warp", None) {
        JsonValue::Object(members) => {
            assert_eq!(members.len(), 6);
            assert!(matches!(members[1].1, JsonValue::Null));
            assert!(matches!(&members[3].1, JsonValue::String(s) if s == "stable"));
        }
        _ => panic!("version response is an object"),
    }
}
