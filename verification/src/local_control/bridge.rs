//! The checks a control request passes before it reaches an action
//! handler, and the responses of the metadata actions.
use vstd::prelude::*;
use crate::json::{str_eq, JsonValue};
use crate::local_control::credentials::CredentialGrant;
use crate::local_control::permissions::{
    settings_refusal_message,
    ensure_feature_enabled, ensure_protocol_version, ensure_settings_allow_action,
    settings_refusal, LocalControlSettings,
};
use crate::local_control::protocol::{
    action_implemented, action_name, ActionKind, ControlError, ErrorCode, PROTOCOL_VERSION,
};
use crate::local_control::resolver::{params_empty, validate_empty_params};
use crate::local_control::selectors::TargetSelector;
use crate::text::{concat, decimal, decimal_string};

verus! {

/// An action with its parameters.
#[derive(Debug)]
pub struct Action {
    pub kind: ActionKind,
    pub params: JsonValue,
}

/// A control request.
#[derive(Debug)]
pub struct RequestEnvelope {
    pub request_id: String,
    pub protocol_version: u32,
    pub action: Action,
    pub target: TargetSelector,
}

/// The headers of an HTTP request: each header's lower-case name and its
/// value when that is visible ASCII text (`None` otherwise), in order.
#[derive(Debug)]
pub struct RequestHeaders {
    pub entries: Vec<(String, Option<String>)>,
}

/// The value of the first header named `name`: `None` when there is no such
/// header, `Some(None)` when its value is not text.
pub open spec fn header_value(entries: Seq<(String, Option<String>)>, name: Seq<char>) -> Option<Option<Seq<char>>>
    decreases entries.len(),
{
    if entries.len() == 0 {
        None
    } else if entries[0].0@ == name {
        Some(match entries[0].1 {
            Some(v) => Some(v@),
            None => None,
        })
    } else {
        header_value(entries.drop_first(), name)
    }
}

/// The error `validate_loopback_headers` gives, if any: any `Origin`
/// header, a missing or non-text `Host`, or a `Host` other than the
/// selected endpoint's.
pub open spec fn loopback_refusal(entries: Seq<(String, Option<String>)>, expected_host: Seq<char>) -> Option<Seq<char>> {
    if header_value(entries, "origin"@) is Some {
        Some("browser-origin local-control requests are not allowed"@)
    } else {
        match header_value(entries, "host"@) {
            Some(Some(host)) => if host == expected_host {
                None
            } else {
                Some("Host header does not match the selected local-control endpoint"@)
            },
            _ => Some("Host header is required for local-control requests"@),
        }
    }
}

/// The first header named `name`.
fn find_header<'a>(entries: &'a Vec<(String, Option<String>)>, name: &str) -> (found: Option<&'a Option<String>>)
    ensures
        match found {
            Some(v) => header_value(entries@, name@) == Some(match *v {
                Some(s) => Some(s@),
                None => None::<Seq<char>>,
            }),
            None => header_value(entries@, name@) is None,
        },
{
    let n = entries.len();
    let mut i: usize = 0;
    assert(entries@.skip(0) =~= entries@);
    while i < n
        invariant
            n == entries@.len(),
            i <= n,
            header_value(entries@, name@) == header_value(entries@.skip(i as int), name@),
        decreases n - i,
    {
        assert(entries@.skip(i as int).drop_first() =~= entries@.skip(i + 1));
        if str_eq(entries[i].0.as_str(), name) {
            return Some(&entries[i].1);
        }
        i = i + 1;
    }
    None
}

/// Browser-origin hardening for the control endpoint: refuses requests
/// that carry an `Origin` header or whose `Host` is not the selected
/// endpoint. This is not the authorization boundary; credentials are.
pub fn validate_loopback_headers(headers: &RequestHeaders, expected_host: &str) -> (result: Result<(), ControlError>)
    ensures
        match result {
            Ok(()) => loopback_refusal(headers.entries@, expected_host@) is None,
            Err(e) => e.code == ErrorCode::UnauthorizedLocalClient
                && loopback_refusal(headers.entries@, expected_host@) == Some(e.message@),
        },
{
    if find_header(&headers.entries, "origin").is_some() {
        return Err(ControlError::new(
            ErrorCode::UnauthorizedLocalClient,
            "browser-origin local-control requests are not allowed".to_owned(),
        ));
    }
    match find_header(&headers.entries, "host") {
        Some(Some(host)) => {
            if str_eq(host.as_str(), expected_host) {
                Ok(())
            } else {
                Err(ControlError::new(
                    ErrorCode::UnauthorizedLocalClient,
                    "Host header does not match the selected local-control endpoint".to_owned(),
                ))
            }
        },
        _ => Err(ControlError::new(
            ErrorCode::UnauthorizedLocalClient,
            "Host header is required for local-control requests".to_owned(),
        )),
    }
}

/// Checks an action's parameters. The implemented actions take none, so
/// their parameters must be an empty object; the parameters of other
/// actions are not inspected here.
pub fn validate_action_params(action: &Action) -> (result: Result<(), ControlError>)
    ensures
        result is Ok <==> (!action_implemented(action.kind) || params_empty(action.params)),
        match result {
            Ok(()) => true,
            Err(e) => e.code == ErrorCode::InvalidParams
                && e.message@ == action_name(action.kind) + " does not accept parameters"@,
        },
{
    if !action.kind.is_implemented() {
        return Ok(());
    }
    validate_empty_params(action.kind, &action.params)
}

/// Checks that `grant` authorizes the request's action on `instance_id` at
/// `now`, that the bridge implements the action, and that its parameters
/// are valid.
pub fn validate_request_authority(
    instance_id: &str,
    action: &Action,
    grant: &CredentialGrant,
    now: i64,
) -> (result: Result<(), ControlError>)
    ensures
        result is Ok <==> {
            &&& grant.authorizes(instance_id@, action.kind, now)
            &&& action_implemented(action.kind)
            &&& params_empty(action.params)
        },
        match result {
            Ok(()) => true,
            Err(e) => if !grant.authorizes(instance_id@, action.kind, now) {
                e.code == ErrorCode::UnauthorizedLocalClient && e.message@ == (
                    if grant.instance_id@ != instance_id@ {
                        "local-control credential was issued for a different instance"@
                    } else if grant.action != action.kind {
                        "local-control credential does not grant the requested action"@
                    } else {
                        "local-control credential has expired"@
                    })
            } else if !action_implemented(action.kind) {
                e.code == ErrorCode::UnsupportedAction
                    && e.message@ == action_name(action.kind) + " is not implemented by this local-control bridge"@
            } else {
                e.code == ErrorCode::InvalidParams
                    && e.message@ == action_name(action.kind) + " does not accept parameters"@
            },
        },
{
    grant.verify_for_action(instance_id, action.kind, now)?;
    if !action.kind.is_implemented() {
        return Err(ControlError::new(
            ErrorCode::UnsupportedAction,
            concat(action.kind.as_str(), " is not implemented by this local-control bridge"),
        ));
    }
    validate_action_params(action)
}

/// Whether the action takes effect on the whole instance or a global
/// surface (instance and app queries other than focusing the app,
/// appearance, themes, settings, keybindings, actions, capabilities) and so
/// accepts no target selector.
pub open spec fn rejects_all_targets(action: ActionKind) -> bool {
    match action {
        ActionKind::InstanceList | ActionKind::InstanceInspect | ActionKind::AppPing
        | ActionKind::AppVersion | ActionKind::AppActive | ActionKind::AppearanceGet
        | ActionKind::AppearanceFontSizeIncrease | ActionKind::AppearanceFontSizeDecrease
        | ActionKind::AppearanceFontSizeReset | ActionKind::AppearanceZoomIncrease
        | ActionKind::AppearanceZoomDecrease | ActionKind::AppearanceZoomReset
        | ActionKind::ThemeList | ActionKind::ThemeGet | ActionKind::ThemeSet
        | ActionKind::ThemeSystemSet | ActionKind::ThemeLightSet | ActionKind::ThemeDarkSet
        | ActionKind::SettingList | ActionKind::SettingGet | ActionKind::SettingSet
        | ActionKind::SettingToggle | ActionKind::KeybindingList | ActionKind::KeybindingGet
        | ActionKind::ActionList | ActionKind::ActionInspect | ActionKind::CapabilityList
        | ActionKind::CapabilityInspect => true,
        _ => false,
    }
}

/// Whether any selector is present (window, tab, pane or session).
pub open spec fn has_target(target: TargetSelector) -> bool {
    target.window is Some || target.tab is Some || target.pane is Some || target.session is Some
}

fn rejects_all_targets_exec(action: ActionKind) -> (rejects: bool)
    ensures
        rejects == rejects_all_targets(action),
{
    match action {
        ActionKind::InstanceList | ActionKind::InstanceInspect | ActionKind::AppPing
        | ActionKind::AppVersion | ActionKind::AppActive | ActionKind::AppearanceGet
        | ActionKind::AppearanceFontSizeIncrease | ActionKind::AppearanceFontSizeDecrease
        | ActionKind::AppearanceFontSizeReset | ActionKind::AppearanceZoomIncrease
        | ActionKind::AppearanceZoomDecrease | ActionKind::AppearanceZoomReset
        | ActionKind::ThemeList | ActionKind::ThemeGet | ActionKind::ThemeSet
        | ActionKind::ThemeSystemSet | ActionKind::ThemeLightSet | ActionKind::ThemeDarkSet
        | ActionKind::SettingList | ActionKind::SettingGet | ActionKind::SettingSet
        | ActionKind::SettingToggle | ActionKind::KeybindingList | ActionKind::KeybindingGet
        | ActionKind::ActionList | ActionKind::ActionInspect | ActionKind::CapabilityList
        | ActionKind::CapabilityInspect => true,
        _ => false,
    }
}

/// Refuses target selectors on actions that accept none.
pub fn validate_action_target(action: ActionKind, target: &TargetSelector) -> (result: Result<(), ControlError>)
    ensures
        result is Ok <==> !(rejects_all_targets(action) && has_target(*target)),
        match result {
            Ok(()) => true,
            Err(e) => e.code == ErrorCode::InvalidSelector
                && e.message@ == action_name(action) + " does not accept target selectors"@,
        },
{
    let has = target.window.is_some() || target.tab.is_some() || target.pane.is_some() || target.session.is_some();
    if rejects_all_targets_exec(action) && has {
        return Err(ControlError::new(
            ErrorCode::InvalidSelector,
            concat(action.as_str(), " does not accept target selectors"),
        ));
    }
    Ok(())
}

/// Whether a request passes every check before its handler runs, in the
/// order the bridge makes them: the feature flag, the protocol version, the
/// bridge's instance identity, the credential's authority, the settings
/// for the credential's invocation context, and the target selectors.
pub open spec fn request_admitted(
    feature_enabled: bool,
    instance_id: Option<Seq<char>>,
    request: RequestEnvelope,
    grant: CredentialGrant,
    settings: LocalControlSettings,
    now: i64,
) -> bool {
    &&& feature_enabled
    &&& request.protocol_version == PROTOCOL_VERSION
    &&& instance_id is Some
    &&& grant.authorizes(instance_id->0, request.action.kind, now)
    &&& action_implemented(request.action.kind)
    &&& params_empty(request.action.params)
    &&& settings_refusal(settings.local_control_mode, grant.invocation_context) is None
    &&& !(rejects_all_targets(request.action.kind) && has_target(request.target))
}

/// The error of the first check a request fails, if any.
pub open spec fn admission_refusal(
    feature_enabled: bool,
    instance_id: Option<Seq<char>>,
    request: RequestEnvelope,
    grant: CredentialGrant,
    settings: LocalControlSettings,
    now: i64,
) -> Option<ErrorCode> {
    if !feature_enabled {
        Some(ErrorCode::LocalControlDisabled)
    } else if request.protocol_version != PROTOCOL_VERSION {
        Some(ErrorCode::ProtocolVersionUnsupported)
    } else if instance_id is None {
        Some(ErrorCode::BridgeUnavailable)
    } else if !grant.authorizes(instance_id->0, request.action.kind, now) {
        Some(ErrorCode::UnauthorizedLocalClient)
    } else if !action_implemented(request.action.kind) {
        Some(ErrorCode::UnsupportedAction)
    } else if !params_empty(request.action.params) {
        Some(ErrorCode::InvalidParams)
    } else if settings_refusal(settings.local_control_mode, grant.invocation_context) is Some {
        settings_refusal(settings.local_control_mode, grant.invocation_context)
    } else if rejects_all_targets(request.action.kind) && has_target(request.target) {
        Some(ErrorCode::InvalidSelector)
    } else {
        None
    }
}

/// The message of the error of the first check a request fails.
pub open spec fn admission_message(
    feature_enabled: bool,
    instance_id: Option<Seq<char>>,
    request: RequestEnvelope,
    grant: CredentialGrant,
    settings: LocalControlSettings,
    now: i64,
) -> Seq<char> {
    let kind = request.action.kind;
    if !feature_enabled {
        "Warp control CLI is disabled by feature flag"@
    } else if request.protocol_version != PROTOCOL_VERSION {
        "unsupported protocol version "@ + decimal(request.protocol_version as nat)
    } else if instance_id is None {
        "local-control bridge has no active instance identity"@
    } else if !grant.authorizes(instance_id->0, kind, now) {
        if grant.instance_id@ != instance_id->0 {
            "local-control credential was issued for a different instance"@
        } else if grant.action != kind {
            "local-control credential does not grant the requested action"@
        } else {
            "local-control credential has expired"@
        }
    } else if !action_implemented(kind) {
        action_name(kind) + " is not implemented by this local-control bridge"@
    } else if !params_empty(request.action.params) {
        action_name(kind) + " does not accept parameters"@
    } else if settings_refusal(settings.local_control_mode, grant.invocation_context) is Some {
        settings_refusal_message(kind, grant.invocation_context, settings_refusal(settings.local_control_mode, grant.invocation_context)->0)
    } else {
        action_name(kind) + " does not accept target selectors"@
    }
}

/// Runs the checks a request must pass before its handler runs (see
/// [`request_admitted`]); the first that fails gives the error.
pub fn admit_request(
    feature_enabled: bool,
    instance_id: Option<&str>,
    request: &RequestEnvelope,
    grant: &CredentialGrant,
    settings: &LocalControlSettings,
    now: i64,
) -> (result: Result<(), ControlError>)
    ensures
        result is Ok <==> request_admitted(
            feature_enabled,
            match instance_id { Some(i) => Some(i@), None => None },
            *request,
            *grant,
            *settings,
            now,
        ),
        match result {
            Ok(()) => true,
            Err(e) => admission_refusal(
                feature_enabled,
                match instance_id { Some(i) => Some(i@), None => None },
                *request,
                *grant,
                *settings,
                now,
            ) == Some(e.code) && e.message@ == admission_message(
                feature_enabled,
                match instance_id { Some(i) => Some(i@), None => None },
                *request,
                *grant,
                *settings,
                now,
            ),
        },
{
    ensure_feature_enabled(feature_enabled)?;
    ensure_protocol_version(request.protocol_version)?;
    let id = match instance_id {
        Some(id) => id,
        None => {
            return Err(ControlError::new(
                ErrorCode::BridgeUnavailable,
                "local-control bridge has no active instance identity".to_owned(),
            ));
        },
    };
    validate_request_authority(id, &request.action, grant, now)?;
    ensure_settings_allow_action(settings, grant.invocation_context, request.action.kind)?;
    validate_action_target(request.action.kind, &request.target)
}

/// A JSON string value.
fn json_string(s: &str) -> (v: JsonValue)
    ensures
        v matches JsonValue::String(t) && t@ == s@,
{
    JsonValue::String(s.to_owned())
}

/// A JSON member.
fn member(key: &str, value: JsonValue) -> (m: (String, JsonValue))
    ensures
        m.0@ == key@,
        m.1 == value,
{
    (key.to_owned(), value)
}

/// The optional instance id as JSON: a string, or `null`.
fn instance_id_json(instance_id: Option<&str>) -> (v: JsonValue)
    ensures
        match instance_id {
            Some(i) => v matches JsonValue::String(t) && t@ == i@,
            None => v is Null,
        },
{
    match instance_id {
        Some(i) => json_string(i),
        None => JsonValue::Null,
    }
}

/// Whether `response` acknowledges a handled `action`: the action's name,
/// `ok`, and the bridge's instance id (`null` without one).
pub open spec fn is_ack(response: JsonValue, instance_id: Option<Seq<char>>, action: ActionKind) -> bool {
    response matches JsonValue::Object(members) && members@.len() == 3 && {
        &&& members@[0].0@ == "action"@
        &&& (members@[0].1 matches JsonValue::String(a) && a@ == action_name(action))
        &&& members@[1].0@ == "ok"@ && members@[1].1 == JsonValue::Bool(true)
        &&& members@[2].0@ == "instance_id"@ && (match instance_id {
            Some(i) => members@[2].1 matches JsonValue::String(t) && t@ == i,
            None => members@[2].1 is Null,
        })
    }
}

/// The reply to a handled mutation: the action, `ok`, and the bridge's
/// instance id (`null` without one).
pub fn ack_response(instance_id: Option<&str>, action: ActionKind) -> (response: JsonValue)
    ensures
        is_ack(response, match instance_id { Some(i) => Some(i@), None => None }, action),
{
    let mut members: Vec<(String, JsonValue)> = Vec::new();
    members.push(member("action", json_string(action.as_str())));
    members.push(member("ok", JsonValue::Bool(true)));
    members.push(member("instance_id", instance_id_json(instance_id)));
    JsonValue::Object(members)
}

/// The response to `app.ping`: the action name, `ok`, the instance id and
/// the protocol version.
pub fn ping_response(instance_id: Option<&str>) -> (response: JsonValue)
    ensures
        response matches JsonValue::Object(members) && members@.len() == 4 && {
            &&& members@[0].0@ == "action"@
            &&& (members@[0].1 matches JsonValue::String(a) && a@ == action_name(ActionKind::AppPing))
            &&& members@[1].0@ == "ok"@ && members@[1].1 == JsonValue::Bool(true)
            &&& members@[2].0@ == "instance_id"@ && (match instance_id {
                Some(i) => members@[2].1 matches JsonValue::String(t) && t@ == i@,
                None => members@[2].1 is Null,
            })
            &&& members@[3].0@ == "protocol_version"@
            &&& (members@[3].1 matches JsonValue::Number(n) && n@ == decimal(PROTOCOL_VERSION as nat))
        },
{
    let mut members: Vec<(String, JsonValue)> = Vec::new();
    members.push(member("action", json_string(ActionKind::AppPing.as_str())));
    members.push(member("ok", JsonValue::Bool(true)));
    members.push(member("instance_id", instance_id_json(instance_id)));
    members.push(member("protocol_version", JsonValue::Number(decimal_string(PROTOCOL_VERSION as u64))));
    JsonValue::Object(members)
}

/// The response to `app.version`: the action name, the instance id, the
/// protocol version, and the release channel, app id and app version the
/// caller reads from the running build.
pub fn version_response(
    instance_id: Option<&str>,
    channel: &str,
    app_id: &str,
    app_version: Option<&str>,
) -> (response: JsonValue)
    ensures
        response matches JsonValue::Object(members) && members@.len() == 6 && {
            &&& members@[0].0@ == "action"@
            &&& (members@[0].1 matches JsonValue::String(a) && a@ == action_name(ActionKind::AppVersion))
            &&& members@[1].0@ == "instance_id"@ && (match instance_id {
                Some(i) => members@[1].1 matches JsonValue::String(t) && t@ == i@,
                None => members@[1].1 is Null,
            })
            &&& members@[2].0@ == "protocol_version"@
            &&& (members@[2].1 matches JsonValue::Number(n) && n@ == decimal(PROTOCOL_VERSION as nat))
            &&& members@[3].0@ == "channel"@
            &&& (members@[3].1 matches JsonValue::String(c) && c@ == channel@)
            &&& members@[4].0@ == "app_id"@
            &&& (members@[4].1 matches JsonValue::String(c) && c@ == app_id@)
            &&& members@[5].0@ == "app_version"@ && (match app_version {
                Some(v) => members@[5].1 matches JsonValue::String(t) && t@ == v@,
                None => members@[5].1 is Null,
            })
        },
{
    let mut members: Vec<(String, JsonValue)> = Vec::new();
    members.push(member("action", json_string(ActionKind::AppVersion.as_str())));
    members.push(member("instance_id", instance_id_json(instance_id)));
    members.push(member("protocol_version", JsonValue::Number(decimal_string(PROTOCOL_VERSION as u64))));
    members.push(member("channel", json_string(channel)));
    members.push(member("app_id", json_string(app_id)));
    members.push(member("app_version", instance_id_json(app_version)));
    JsonValue::Object(members)
}

} // verus!
