use warp_app::local_control::{
    file_delete_check, file_delete_params_check, file_mutation_failure, file_write_check,
    request_handler, response_envelope, route_request, settings_with_mode, tab_close_result,
    tab_close_step, Action, ActionKind, CredentialGrant, ErrorCode, InvocationContext,
    LocalControlMode, RequestEnvelope, RequestHandler, TabCloseStep, TargetSelector,
    PROTOCOL_VERSION,
};
use warp_app::JsonValue;

fn request(kind: ActionKind, version: u32) -> RequestEnvelope {
    RequestEnvelope {
        request_id: "req-7".to_owned(),
        protocol_version: version,
        action: Action { kind, params: JsonValue::Object(Vec::new()) },
        target: TargetSelector::default(),
    }
}

fn grant(kind: ActionKind) -> CredentialGrant {
    CredentialGrant {
        instance_id: "instance".to_owned(),
        action: kind,
        invocation_context: InvocationContext::OutsideWarp,
        issued_at: 0,
        expires_at: 1000,
    }
}

fn is_tab_close_ack(value: &JsonValue, instance: Option<&str>) -> bool {
    match value {
        JsonValue::Object(members) => {
            members.len() == 3
                && matches!(&members[0].1, JsonValue::String(s) if s == "tab.close")
                && matches!(members[1].1, JsonValue::Bool(true))
                && match instance {
                    Some(i) => matches!(&members[2].1, JsonValue::String(s) if s == i),
                    None => matches!(members[2].1, JsonValue::Null),
                }
        }
        _ => false,
    }
}

#[test]
fn admitted_requests_are_routed_and_refusals_echo_the_request_id() {
    let settings = settings_with_mode(LocalControlMode::EnabledEverywhere);
    let ping = request(ActionKind::AppPing, PROTOCOL_VERSION);
    assert_eq!(route_request(true, Some("instance"), &ping, &grant(ActionKind::AppPing), &settings, 10).unwrap(), RequestHandler::Ping);

    let stale = request(ActionKind::AppPing, PROTOCOL_VERSION + 1);
    let response = route_request(true, Some("instance"), &stale, &grant(ActionKind::AppPing), &settings, 10).unwrap_err();
    assert_eq!(response.request_id, "req-7");
    let err = response.result.unwrap_err();
    assert_eq!(err.code, ErrorCode::ProtocolVersionUnsupported);
    assert_eq!(err.message, "unsupported protocol version 2");

    let response = route_request(true, None, &ping, &grant(ActionKind::AppPing), &settings, 10).unwrap_err();
    assert_eq!(response.result.unwrap_err().code, ErrorCode::BridgeUnavailable);

    assert_eq!(request_handler(ActionKind::TabCreate), RequestHandler::AppState);
    assert_eq!(request_handler(ActionKind::ThemeDarkSet), RequestHandler::ThemeSet);
    assert_eq!(request_handler(ActionKind::TabClose), RequestHandler::TabClose);
    assert_eq!(request_handler(ActionKind::DriveList), RequestHandler::Unrouted);

    let ok = response_envelope("req-9".to_owned(), Ok(JsonValue::Null));
    assert_eq!(ok.request_id, "req-9");
    assert!(matches!(ok.result, Ok(JsonValue::Null)));
}

#[test]
fn tab_close_outcomes() {
    match tab_close_step(Some("inst"), Vec::new()) {
        TabCloseStep::Acknowledge(reply) => assert!(is_tab_close_ack(&reply, Some("inst"))),
        other => panic!("unexpected step {:?}", other),
    }
    match tab_close_step(None, vec![1, 2]) {
        TabCloseStep::Close(indices) => assert_eq!(indices, vec![1, 2]),
        other => panic!("unexpected step {:?}", other),
    }
    assert!(is_tab_close_ack(&tab_close_result(None, true).unwrap(), None));
    let err = tab_close_result(None, false).unwrap_err();
    assert_eq!(err.code, ErrorCode::TargetStateConflict);
    assert_eq!(err.message, "tab close was cancelled by an existing app warning");
}

#[test]
fn file_write_and_delete_checks() {
    assert!(file_write_check(true, false, false).is_ok());
    assert!(file_write_check(false, true, true).is_ok());
    let err = file_write_check(false, false, false).unwrap_err();
    assert_eq!(err.code, ErrorCode::StaleTarget);
    assert_eq!(err.message, "file.write cannot resolve the requested file path");
    let err = file_write_check(true, true, false).unwrap_err();
    assert_eq!(err.code, ErrorCode::UnsupportedAction);
    assert_eq!(err.message, "file.write only supports writing files");

    let err = file_delete_params_check(true).unwrap_err();
    assert_eq!(err.message, "file.delete does not support recursive directory deletion");
    assert!(file_delete_params_check(false).is_ok());
    assert_eq!(file_delete_check(false).unwrap_err().message, "file.delete only supports deleting files");
    assert!(file_delete_check(true).is_ok());

    let err = file_mutation_failure(true, "permission denied".to_owned());
    assert_eq!(err.code, ErrorCode::TargetStateConflict);
    assert_eq!(err.message, "file.delete failed to delete the requested file");
    assert_eq!(err.details.as_deref(), Some("permission denied"));
}
