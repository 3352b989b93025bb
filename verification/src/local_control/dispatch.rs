//! Routing of admitted local-control requests to their handlers, and the
//! response envelope that carries a request's id back to the client.
use vstd::prelude::*;
use crate::json::JsonValue;
use crate::local_control::bridge::{admission_message, admission_refusal, admit_request, request_admitted, RequestEnvelope};
use crate::local_control::credentials::CredentialGrant;
use crate::local_control::permissions::LocalControlSettings;
use crate::local_control::protocol::{ActionKind, ControlError};

verus! {

/// The handler an admitted request runs.
#[derive(Debug, Clone, Copy, PartialEq, Eq, Structural)]
pub enum RequestHandler {
    Instance,
    InstanceInspect,
    Ping,
    Version,
    Active,
    CapabilityList,
    CapabilityInspect,
    ActionList,
    ActionInspect,
    SurfaceList,
    WindowList,
    WindowInspect,
    TabList,
    TabInspect,
    /// The app-state handler, which turns the action into a workspace command.
    AppState,
    TabRename,
    TabResetName,
    TabColorSet,
    TabColorClear,
    PaneList,
    PaneInspect,
    PaneRename,
    PaneResetName,
    SessionList,
    SessionInspect,
    ThemeList,
    ThemeGet,
    ThemeSet,
    AppearanceGet,
    AppearanceMutation,
    SettingList,
    SettingGet,
    SettingSet,
    SettingToggle,
    KeybindingList,
    KeybindingGet,
    WindowClose,
    TabClose,
    PaneClose,
    /// No handler: the bridge routes no such action.
    Unrouted,
}

/// The handler of each action.
pub open spec fn route(kind: ActionKind) -> RequestHandler {
    match kind {
        ActionKind::InstanceList => RequestHandler::Instance,
        ActionKind::InstanceInspect => RequestHandler::InstanceInspect,
        ActionKind::AppPing => RequestHandler::Ping,
        ActionKind::AppVersion => RequestHandler::Version,
        ActionKind::AppActive => RequestHandler::Active,
        ActionKind::CapabilityList => RequestHandler::CapabilityList,
        ActionKind::CapabilityInspect => RequestHandler::CapabilityInspect,
        ActionKind::ActionList => RequestHandler::ActionList,
        ActionKind::ActionInspect => RequestHandler::ActionInspect,
        ActionKind::SurfaceList => RequestHandler::SurfaceList,
        ActionKind::WindowList => RequestHandler::WindowList,
        ActionKind::WindowInspect => RequestHandler::WindowInspect,
        ActionKind::TabList => RequestHandler::TabList,
        ActionKind::TabInspect => RequestHandler::TabInspect,
        ActionKind::AppFocus | ActionKind::WindowCreate | ActionKind::WindowFocus | ActionKind::TabCreate | ActionKind::TabActivate | ActionKind::TabMove | ActionKind::PaneSplit | ActionKind::PaneFocus | ActionKind::PaneNavigate | ActionKind::PaneResize | ActionKind::PaneMaximize | ActionKind::PaneUnmaximize | ActionKind::SessionActivate | ActionKind::SessionPrevious | ActionKind::SessionNext | ActionKind::SessionReopenClosed | ActionKind::InputInsert | ActionKind::InputReplace | ActionKind::SurfaceSettingsOpen | ActionKind::SurfaceCommandPaletteOpen | ActionKind::SurfaceCommandSearchOpen | ActionKind::SurfaceThemePickerOpen | ActionKind::SurfaceKeybindingsOpen | ActionKind::SurfaceWarpDriveOpen | ActionKind::SurfaceWarpDriveToggle | ActionKind::SurfaceResourceCenterToggle | ActionKind::SurfaceAiAssistantToggle | ActionKind::SurfaceCodeReviewOpen | ActionKind::SurfaceCodeReviewToggle | ActionKind::SurfaceProjectExplorerOpen | ActionKind::SurfaceGlobalSearchOpen | ActionKind::SurfaceConversationListOpen | ActionKind::SurfaceLeftPanelToggle | ActionKind::SurfaceRightPanelToggle | ActionKind::SurfaceVerticalTabsOpen | ActionKind::SurfaceVerticalTabsToggle | ActionKind::SurfaceAgentManagementOpen | ActionKind::FileOpen => RequestHandler::AppState,
        ActionKind::TabRename => RequestHandler::TabRename,
        ActionKind::TabResetName => RequestHandler::TabResetName,
        ActionKind::TabColorSet => RequestHandler::TabColorSet,
        ActionKind::TabColorClear => RequestHandler::TabColorClear,
        ActionKind::PaneList => RequestHandler::PaneList,
        ActionKind::PaneInspect => RequestHandler::PaneInspect,
        ActionKind::PaneRename => RequestHandler::PaneRename,
        ActionKind::PaneResetName => RequestHandler::PaneResetName,
        ActionKind::SessionList => RequestHandler::SessionList,
        ActionKind::SessionInspect => RequestHandler::SessionInspect,
        ActionKind::ThemeList => RequestHandler::ThemeList,
        ActionKind::ThemeGet => RequestHandler::ThemeGet,
        ActionKind::ThemeSet | ActionKind::ThemeSystemSet | ActionKind::ThemeLightSet | ActionKind::ThemeDarkSet => RequestHandler::ThemeSet,
        ActionKind::AppearanceGet => RequestHandler::AppearanceGet,
        ActionKind::AppearanceFontSizeIncrease | ActionKind::AppearanceFontSizeDecrease | ActionKind::AppearanceFontSizeReset | ActionKind::AppearanceZoomIncrease | ActionKind::AppearanceZoomDecrease | ActionKind::AppearanceZoomReset => RequestHandler::AppearanceMutation,
        ActionKind::SettingList => RequestHandler::SettingList,
        ActionKind::SettingGet => RequestHandler::SettingGet,
        ActionKind::SettingSet => RequestHandler::SettingSet,
        ActionKind::SettingToggle => RequestHandler::SettingToggle,
        ActionKind::KeybindingList => RequestHandler::KeybindingList,
        ActionKind::KeybindingGet => RequestHandler::KeybindingGet,
        ActionKind::WindowClose => RequestHandler::WindowClose,
        ActionKind::TabClose => RequestHandler::TabClose,
        ActionKind::PaneClose => RequestHandler::PaneClose,
        _ => RequestHandler::Unrouted,
    }
}

/// The handler that runs an admitted request of kind `kind`.
pub fn request_handler(kind: ActionKind) -> (handler: RequestHandler)
    ensures
        handler == route(kind),
{
    match kind {
        ActionKind::InstanceList => RequestHandler::Instance,
        ActionKind::InstanceInspect => RequestHandler::InstanceInspect,
        ActionKind::AppPing => RequestHandler::Ping,
        ActionKind::AppVersion => RequestHandler::Version,
        ActionKind::AppActive => RequestHandler::Active,
        ActionKind::CapabilityList => RequestHandler::CapabilityList,
        ActionKind::CapabilityInspect => RequestHandler::CapabilityInspect,
        ActionKind::ActionList => RequestHandler::ActionList,
        ActionKind::ActionInspect => RequestHandler::ActionInspect,
        ActionKind::SurfaceList => RequestHandler::SurfaceList,
        ActionKind::WindowList => RequestHandler::WindowList,
        ActionKind::WindowInspect => RequestHandler::WindowInspect,
        ActionKind::TabList => RequestHandler::TabList,
        ActionKind::TabInspect => RequestHandler::TabInspect,
        ActionKind::AppFocus | ActionKind::WindowCreate | ActionKind::WindowFocus | ActionKind::TabCreate | ActionKind::TabActivate | ActionKind::TabMove | ActionKind::PaneSplit | ActionKind::PaneFocus | ActionKind::PaneNavigate | ActionKind::PaneResize | ActionKind::PaneMaximize | ActionKind::PaneUnmaximize | ActionKind::SessionActivate | ActionKind::SessionPrevious | ActionKind::SessionNext | ActionKind::SessionReopenClosed | ActionKind::InputInsert | ActionKind::InputReplace | ActionKind::SurfaceSettingsOpen | ActionKind::SurfaceCommandPaletteOpen | ActionKind::SurfaceCommandSearchOpen | ActionKind::SurfaceThemePickerOpen | ActionKind::SurfaceKeybindingsOpen | ActionKind::SurfaceWarpDriveOpen | ActionKind::SurfaceWarpDriveToggle | ActionKind::SurfaceResourceCenterToggle | ActionKind::SurfaceAiAssistantToggle | ActionKind::SurfaceCodeReviewOpen | ActionKind::SurfaceCodeReviewToggle | ActionKind::SurfaceProjectExplorerOpen | ActionKind::SurfaceGlobalSearchOpen | ActionKind::SurfaceConversationListOpen | ActionKind::SurfaceLeftPanelToggle | ActionKind::SurfaceRightPanelToggle | ActionKind::SurfaceVerticalTabsOpen | ActionKind::SurfaceVerticalTabsToggle | ActionKind::SurfaceAgentManagementOpen | ActionKind::FileOpen => RequestHandler::AppState,
        ActionKind::TabRename => RequestHandler::TabRename,
        ActionKind::TabResetName => RequestHandler::TabResetName,
        ActionKind::TabColorSet => RequestHandler::TabColorSet,
        ActionKind::TabColorClear => RequestHandler::TabColorClear,
        ActionKind::PaneList => RequestHandler::PaneList,
        ActionKind::PaneInspect => RequestHandler::PaneInspect,
        ActionKind::PaneRename => RequestHandler::PaneRename,
        ActionKind::PaneResetName => RequestHandler::PaneResetName,
        ActionKind::SessionList => RequestHandler::SessionList,
        ActionKind::SessionInspect => RequestHandler::SessionInspect,
        ActionKind::ThemeList => RequestHandler::ThemeList,
        ActionKind::ThemeGet => RequestHandler::ThemeGet,
        ActionKind::ThemeSet | ActionKind::ThemeSystemSet | ActionKind::ThemeLightSet | ActionKind::ThemeDarkSet => RequestHandler::ThemeSet,
        ActionKind::AppearanceGet => RequestHandler::AppearanceGet,
        ActionKind::AppearanceFontSizeIncrease | ActionKind::AppearanceFontSizeDecrease | ActionKind::AppearanceFontSizeReset | ActionKind::AppearanceZoomIncrease | ActionKind::AppearanceZoomDecrease | ActionKind::AppearanceZoomReset => RequestHandler::AppearanceMutation,
        ActionKind::SettingList => RequestHandler::SettingList,
        ActionKind::SettingGet => RequestHandler::SettingGet,
        ActionKind::SettingSet => RequestHandler::SettingSet,
        ActionKind::SettingToggle => RequestHandler::SettingToggle,
        ActionKind::KeybindingList => RequestHandler::KeybindingList,
        ActionKind::KeybindingGet => RequestHandler::KeybindingGet,
        ActionKind::WindowClose => RequestHandler::WindowClose,
        ActionKind::TabClose => RequestHandler::TabClose,
        ActionKind::PaneClose => RequestHandler::PaneClose,
        _ => RequestHandler::Unrouted,
    }
}

/// The reply to a request: its id, and the handler's data or the error.
#[derive(Debug)]
pub struct ResponseEnvelope {
    pub request_id: String,
    pub result: Result<JsonValue, ControlError>,
}

/// The reply to the request with id `request_id`.
pub fn response_envelope(request_id: String, result: Result<JsonValue, ControlError>) -> (response: ResponseEnvelope)
    ensures
        response.request_id == request_id,
        response.result == result,
{
    ResponseEnvelope { request_id, result }
}

/// Admits a request and picks its handler; a refused request is answered
/// at once with its id and the error of the first check it fails.
pub fn route_request(
    feature_enabled: bool,
    instance_id: Option<&str>,
    request: &RequestEnvelope,
    grant: &CredentialGrant,
    settings: &LocalControlSettings,
    now: i64,
) -> (routed: Result<RequestHandler, ResponseEnvelope>)
    ensures
        ({
            let id = match instance_id { Some(i) => Some(i@), None => None };
            match routed {
                Ok(h) => request_admitted(feature_enabled, id, *request, *grant, *settings, now)
                    && h == route(request.action.kind),
                Err(response) => !request_admitted(feature_enabled, id, *request, *grant, *settings, now)
                    && response.request_id@ == request.request_id@
                    && (response.result matches Err(e)
                        && admission_refusal(feature_enabled, id, *request, *grant, *settings, now) == Some(e.code)
                        && e.message@ == admission_message(feature_enabled, id, *request, *grant, *settings, now)),
            }
        }),
{
    match admit_request(feature_enabled, instance_id, request, grant, settings, now) {
        Ok(()) => Ok(request_handler(request.action.kind)),
        Err(e) => Err(response_envelope(request.request_id.clone(), Err(e))),
    }
}

} // verus!
