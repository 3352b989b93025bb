//! Protocol vocabulary of local control: actions, error codes, errors,
//! invocation contexts and target selectors.
use vstd::prelude::*;
use crate::json::str_eq;
use crate::text::concat;

verus! {

/// The protocol version this bridge speaks.
pub const PROTOCOL_VERSION: u32 = 1;

/// Why a local-control request was refused.
#[derive(Clone, Copy, Debug, PartialEq, Eq, Structural)]
pub enum ErrorCode {
    AmbiguousTarget,
    BridgeUnavailable,
    ExecutionContextNotAllowed,
    Internal,
    InvalidParams,
    InvalidRequest,
    InvalidSelector,
    LocalControlDisabled,
    MissingTarget,
    NotAllowlisted,
    ProtocolVersionUnsupported,
    StaleTarget,
    TargetStateConflict,
    TransportUnavailable,
    UnauthorizedLocalClient,
    UnsupportedAction,
}

/// The name of an error code in a reply: its variant name in snake case.
pub open spec fn error_code_name(code: ErrorCode) -> Seq<char> {
    match code {
        ErrorCode::AmbiguousTarget => "ambiguous_target"@,
        ErrorCode::BridgeUnavailable => "bridge_unavailable"@,
        ErrorCode::ExecutionContextNotAllowed => "execution_context_not_allowed"@,
        ErrorCode::Internal => "internal"@,
        ErrorCode::InvalidParams => "invalid_params"@,
        ErrorCode::InvalidRequest => "invalid_request"@,
        ErrorCode::InvalidSelector => "invalid_selector"@,
        ErrorCode::LocalControlDisabled => "local_control_disabled"@,
        ErrorCode::MissingTarget => "missing_target"@,
        ErrorCode::NotAllowlisted => "not_allowlisted"@,
        ErrorCode::ProtocolVersionUnsupported => "protocol_version_unsupported"@,
        ErrorCode::StaleTarget => "stale_target"@,
        ErrorCode::TargetStateConflict => "target_state_conflict"@,
        ErrorCode::TransportUnavailable => "transport_unavailable"@,
        ErrorCode::UnauthorizedLocalClient => "unauthorized_local_client"@,
        ErrorCode::UnsupportedAction => "unsupported_action"@,
    }
}

impl ErrorCode {
    /// The name of the code in a reply.
    pub fn wire_name(&self) -> (name: &'static str)
        ensures
            name@ == error_code_name(*self),
    {
        match self {
            ErrorCode::AmbiguousTarget => "ambiguous_target",
            ErrorCode::BridgeUnavailable => "bridge_unavailable",
            ErrorCode::ExecutionContextNotAllowed => "execution_context_not_allowed",
            ErrorCode::Internal => "internal",
            ErrorCode::InvalidParams => "invalid_params",
            ErrorCode::InvalidRequest => "invalid_request",
            ErrorCode::InvalidSelector => "invalid_selector",
            ErrorCode::LocalControlDisabled => "local_control_disabled",
            ErrorCode::MissingTarget => "missing_target",
            ErrorCode::NotAllowlisted => "not_allowlisted",
            ErrorCode::ProtocolVersionUnsupported => "protocol_version_unsupported",
            ErrorCode::StaleTarget => "stale_target",
            ErrorCode::TargetStateConflict => "target_state_conflict",
            ErrorCode::TransportUnavailable => "transport_unavailable",
            ErrorCode::UnauthorizedLocalClient => "unauthorized_local_client",
            ErrorCode::UnsupportedAction => "unsupported_action",
        }
    }
}

/// A refused local-control request: a code, a message, and optional details.
#[derive(Debug)]
pub struct ControlError {
    pub code: ErrorCode,
    pub message: String,
    pub details: Option<String>,
}

impl ControlError {
    /// An error with a code and a message.
    pub fn new(code: ErrorCode, message: String) -> (error: ControlError)
        ensures
            error.code == code,
            error.message@ == message@,
            error.details is None,
    {
        ControlError { code, message, details: None }
    }

    /// An error with a code, a message and details.
    pub fn with_details(code: ErrorCode, message: String, details: String) -> (error: ControlError)
        ensures
            error.code == code,
            error.message@ == message@,
            error.details == Some(details),
    {
        ControlError { code, message, details: Some(details) }
    }
}

/// Where the client asking for control runs.
#[derive(Clone, Copy, Debug, PartialEq, Eq, Structural)]
pub enum InvocationContext {
    /// A terminal session inside Warp.
    InsideWarp,
    /// A process outside Warp.
    OutsideWarp,
}

/// A local-control action.
#[derive(Clone, Copy, Debug, PartialEq, Eq, Structural, Hash)]
pub enum ActionKind {
    ActionInspect,
    ActionList,
    AppActive,
    AppFocus,
    AppPing,
    AppVersion,
    AppearanceFontSizeDecrease,
    AppearanceFontSizeIncrease,
    AppearanceFontSizeReset,
    AppearanceGet,
    AppearanceZoomDecrease,
    AppearanceZoomIncrease,
    AppearanceZoomReset,
    BlockGet,
    BlockList,
    CapabilityInspect,
    CapabilityList,
    DriveEnvVarCollectionOpen,
    DriveInspect,
    DriveList,
    DriveNotebookOpen,
    DriveObjectShareOpen,
    DriveOpen,
    FileDelete,
    FileList,
    FileOpen,
    FileWrite,
    HistoryList,
    InputClear,
    InputGet,
    InputInsert,
    InputModeSet,
    InputReplace,
    InstanceInspect,
    InstanceList,
    KeybindingGet,
    KeybindingList,
    PaneClose,
    PaneFocus,
    PaneInspect,
    PaneList,
    PaneMaximize,
    PaneNavigate,
    PaneRename,
    PaneResetName,
    PaneResize,
    PaneSessionNext,
    PaneSessionPrevious,
    PaneSplit,
    PaneUnmaximize,
    ProjectOpen,
    SessionActivate,
    SessionInspect,
    SessionList,
    SessionNext,
    SessionPrevious,
    SessionReopen,
    SessionReopenClosed,
    SettingGet,
    SettingList,
    SettingSet,
    SettingToggle,
    SurfaceAgentManagementOpen,
    SurfaceAiAssistantToggle,
    SurfaceCodeReviewOpen,
    SurfaceCodeReviewToggle,
    SurfaceCommandPaletteOpen,
    SurfaceCommandSearchOpen,
    SurfaceConversationListOpen,
    SurfaceGlobalSearchOpen,
    SurfaceKeybindingsOpen,
    SurfaceLeftPanelToggle,
    SurfaceList,
    SurfaceProjectExplorerOpen,
    SurfaceResourceCenterToggle,
    SurfaceRightPanelToggle,
    SurfaceSettingsOpen,
    SurfaceThemePickerOpen,
    SurfaceVerticalTabsOpen,
    SurfaceVerticalTabsToggle,
    SurfaceWarpDriveOpen,
    SurfaceWarpDriveToggle,
    TabActivate,
    TabClose,
    TabColorClear,
    TabColorSet,
    TabCreate,
    TabInspect,
    TabList,
    TabMove,
    TabRename,
    TabResetName,
    ThemeDarkSet,
    ThemeGet,
    ThemeLightSet,
    ThemeList,
    ThemeSet,
    ThemeSystemSet,
    WindowClose,
    WindowCreate,
    WindowFocus,
    WindowInspect,
    WindowList,
}

/// The wire name of an action.
pub open spec fn action_name(action: ActionKind) -> Seq<char> {
    match action {
        ActionKind::ActionInspect => "action.inspect"@,
        ActionKind::ActionList => "action.list"@,
        ActionKind::AppActive => "app.active"@,
        ActionKind::AppFocus => "app.focus"@,
        ActionKind::AppPing => "app.ping"@,
        ActionKind::AppVersion => "app.version"@,
        ActionKind::AppearanceFontSizeDecrease => "appearance.font_size.decrease"@,
        ActionKind::AppearanceFontSizeIncrease => "appearance.font_size.increase"@,
        ActionKind::AppearanceFontSizeReset => "appearance.font_size.reset"@,
        ActionKind::AppearanceGet => "appearance.get"@,
        ActionKind::AppearanceZoomDecrease => "appearance.zoom.decrease"@,
        ActionKind::AppearanceZoomIncrease => "appearance.zoom.increase"@,
        ActionKind::AppearanceZoomReset => "appearance.zoom.reset"@,
        ActionKind::BlockGet => "block.get"@,
        ActionKind::BlockList => "block.list"@,
        ActionKind::CapabilityInspect => "capability.inspect"@,
        ActionKind::CapabilityList => "capability.list"@,
        ActionKind::DriveEnvVarCollectionOpen => "drive.env_var_collection.open"@,
        ActionKind::DriveInspect => "drive.inspect"@,
        ActionKind::DriveList => "drive.list"@,
        ActionKind::DriveNotebookOpen => "drive.notebook.open"@,
        ActionKind::DriveObjectShareOpen => "drive.object_share.open"@,
        ActionKind::DriveOpen => "drive.open"@,
        ActionKind::FileDelete => "file.delete"@,
        ActionKind::FileList => "file.list"@,
        ActionKind::FileOpen => "file.open"@,
        ActionKind::FileWrite => "file.write"@,
        ActionKind::HistoryList => "history.list"@,
        ActionKind::InputClear => "input.clear"@,
        ActionKind::InputGet => "input.get"@,
        ActionKind::InputInsert => "input.insert"@,
        ActionKind::InputModeSet => "input.mode.set"@,
        ActionKind::InputReplace => "input.replace"@,
        ActionKind::InstanceInspect => "instance.inspect"@,
        ActionKind::InstanceList => "instance.list"@,
        ActionKind::KeybindingGet => "keybinding.get"@,
        ActionKind::KeybindingList => "keybinding.list"@,
        ActionKind::PaneClose => "pane.close"@,
        ActionKind::PaneFocus => "pane.focus"@,
        ActionKind::PaneInspect => "pane.inspect"@,
        ActionKind::PaneList => "pane.list"@,
        ActionKind::PaneMaximize => "pane.maximize"@,
        ActionKind::PaneNavigate => "pane.navigate"@,
        ActionKind::PaneRename => "pane.rename"@,
        ActionKind::PaneResetName => "pane.reset.name"@,
        ActionKind::PaneResize => "pane.resize"@,
        ActionKind::PaneSessionNext => "pane.session.next"@,
        ActionKind::PaneSessionPrevious => "pane.session.previous"@,
        ActionKind::PaneSplit => "pane.split"@,
        ActionKind::PaneUnmaximize => "pane.unmaximize"@,
        ActionKind::ProjectOpen => "project.open"@,
        ActionKind::SessionActivate => "session.activate"@,
        ActionKind::SessionInspect => "session.inspect"@,
        ActionKind::SessionList => "session.list"@,
        ActionKind::SessionNext => "session.next"@,
        ActionKind::SessionPrevious => "session.previous"@,
        ActionKind::SessionReopen => "session.reopen"@,
        ActionKind::SessionReopenClosed => "session.reopen.closed"@,
        ActionKind::SettingGet => "setting.get"@,
        ActionKind::SettingList => "setting.list"@,
        ActionKind::SettingSet => "setting.set"@,
        ActionKind::SettingToggle => "setting.toggle"@,
        ActionKind::SurfaceAgentManagementOpen => "surface.agent_management.open"@,
        ActionKind::SurfaceAiAssistantToggle => "surface.ai_assistant.toggle"@,
        ActionKind::SurfaceCodeReviewOpen => "surface.code_review.open"@,
        ActionKind::SurfaceCodeReviewToggle => "surface.code_review.toggle"@,
        ActionKind::SurfaceCommandPaletteOpen => "surface.command_palette.open"@,
        ActionKind::SurfaceCommandSearchOpen => "surface.command_search.open"@,
        ActionKind::SurfaceConversationListOpen => "surface.conversation_list.open"@,
        ActionKind::SurfaceGlobalSearchOpen => "surface.global_search.open"@,
        ActionKind::SurfaceKeybindingsOpen => "surface.keybindings.open"@,
        ActionKind::SurfaceLeftPanelToggle => "surface.left_panel.toggle"@,
        ActionKind::SurfaceList => "surface.list"@,
        ActionKind::SurfaceProjectExplorerOpen => "surface.project_explorer.open"@,
        ActionKind::SurfaceResourceCenterToggle => "surface.resource_center.toggle"@,
        ActionKind::SurfaceRightPanelToggle => "surface.right_panel.toggle"@,
        ActionKind::SurfaceSettingsOpen => "surface.settings.open"@,
        ActionKind::SurfaceThemePickerOpen => "surface.theme_picker.open"@,
        ActionKind::SurfaceVerticalTabsOpen => "surface.vertical_tabs.open"@,
        ActionKind::SurfaceVerticalTabsToggle => "surface.vertical_tabs.toggle"@,
        ActionKind::SurfaceWarpDriveOpen => "surface.warp_drive.open"@,
        ActionKind::SurfaceWarpDriveToggle => "surface.warp_drive.toggle"@,
        ActionKind::TabActivate => "tab.activate"@,
        ActionKind::TabClose => "tab.close"@,
        ActionKind::TabColorClear => "tab.color.clear"@,
        ActionKind::TabColorSet => "tab.color.set"@,
        ActionKind::TabCreate => "tab.create"@,
        ActionKind::TabInspect => "tab.inspect"@,
        ActionKind::TabList => "tab.list"@,
        ActionKind::TabMove => "tab.move"@,
        ActionKind::TabRename => "tab.rename"@,
        ActionKind::TabResetName => "tab.reset.name"@,
        ActionKind::ThemeDarkSet => "theme.dark.set"@,
        ActionKind::ThemeGet => "theme.get"@,
        ActionKind::ThemeLightSet => "theme.light.set"@,
        ActionKind::ThemeList => "theme.list"@,
        ActionKind::ThemeSet => "theme.set"@,
        ActionKind::ThemeSystemSet => "theme.system.set"@,
        ActionKind::WindowClose => "window.close"@,
        ActionKind::WindowCreate => "window.create"@,
        ActionKind::WindowFocus => "window.focus"@,
        ActionKind::WindowInspect => "window.inspect"@,
        ActionKind::WindowList => "window.list"@,
    }
}

/// Whether this bridge implements the action: the first slice of core
/// actions (instance listing, ping, version, tab creation).
pub open spec fn action_implemented(action: ActionKind) -> bool {
    ||| action == ActionKind::InstanceList
    ||| action == ActionKind::AppPing
    ||| action == ActionKind::AppVersion
    ||| action == ActionKind::TabCreate
}

impl ActionKind {
    /// The wire name of the action.
    pub fn as_str(&self) -> (name: &'static str)
        ensures
            name@ == action_name(*self),
    {
        match self {
            ActionKind::ActionInspect => "action.inspect",
            ActionKind::ActionList => "action.list",
            ActionKind::AppActive => "app.active",
            ActionKind::AppFocus => "app.focus",
            ActionKind::AppPing => "app.ping",
            ActionKind::AppVersion => "app.version",
            ActionKind::AppearanceFontSizeDecrease => "appearance.font_size.decrease",
            ActionKind::AppearanceFontSizeIncrease => "appearance.font_size.increase",
            ActionKind::AppearanceFontSizeReset => "appearance.font_size.reset",
            ActionKind::AppearanceGet => "appearance.get",
            ActionKind::AppearanceZoomDecrease => "appearance.zoom.decrease",
            ActionKind::AppearanceZoomIncrease => "appearance.zoom.increase",
            ActionKind::AppearanceZoomReset => "appearance.zoom.reset",
            ActionKind::BlockGet => "block.get",
            ActionKind::BlockList => "block.list",
            ActionKind::CapabilityInspect => "capability.inspect",
            ActionKind::CapabilityList => "capability.list",
            ActionKind::DriveEnvVarCollectionOpen => "drive.env_var_collection.open",
            ActionKind::DriveInspect => "drive.inspect",
            ActionKind::DriveList => "drive.list",
            ActionKind::DriveNotebookOpen => "drive.notebook.open",
            ActionKind::DriveObjectShareOpen => "drive.object_share.open",
            ActionKind::DriveOpen => "drive.open",
            ActionKind::FileDelete => "file.delete",
            ActionKind::FileList => "file.list",
            ActionKind::FileOpen => "file.open",
            ActionKind::FileWrite => "file.write",
            ActionKind::HistoryList => "history.list",
            ActionKind::InputClear => "input.clear",
            ActionKind::InputGet => "input.get",
            ActionKind::InputInsert => "input.insert",
            ActionKind::InputModeSet => "input.mode.set",
            ActionKind::InputReplace => "input.replace",
            ActionKind::InstanceInspect => "instance.inspect",
            ActionKind::InstanceList => "instance.list",
            ActionKind::KeybindingGet => "keybinding.get",
            ActionKind::KeybindingList => "keybinding.list",
            ActionKind::PaneClose => "pane.close",
            ActionKind::PaneFocus => "pane.focus",
            ActionKind::PaneInspect => "pane.inspect",
            ActionKind::PaneList => "pane.list",
            ActionKind::PaneMaximize => "pane.maximize",
            ActionKind::PaneNavigate => "pane.navigate",
            ActionKind::PaneRename => "pane.rename",
            ActionKind::PaneResetName => "pane.reset.name",
            ActionKind::PaneResize => "pane.resize",
            ActionKind::PaneSessionNext => "pane.session.next",
            ActionKind::PaneSessionPrevious => "pane.session.previous",
            ActionKind::PaneSplit => "pane.split",
            ActionKind::PaneUnmaximize => "pane.unmaximize",
            ActionKind::ProjectOpen => "project.open",
            ActionKind::SessionActivate => "session.activate",
            ActionKind::SessionInspect => "session.inspect",
            ActionKind::SessionList => "session.list",
            ActionKind::SessionNext => "session.next",
            ActionKind::SessionPrevious => "session.previous",
            ActionKind::SessionReopen => "session.reopen",
            ActionKind::SessionReopenClosed => "session.reopen.closed",
            ActionKind::SettingGet => "setting.get",
            ActionKind::SettingList => "setting.list",
            ActionKind::SettingSet => "setting.set",
            ActionKind::SettingToggle => "setting.toggle",
            ActionKind::SurfaceAgentManagementOpen => "surface.agent_management.open",
            ActionKind::SurfaceAiAssistantToggle => "surface.ai_assistant.toggle",
            ActionKind::SurfaceCodeReviewOpen => "surface.code_review.open",
            ActionKind::SurfaceCodeReviewToggle => "surface.code_review.toggle",
            ActionKind::SurfaceCommandPaletteOpen => "surface.command_palette.open",
            ActionKind::SurfaceCommandSearchOpen => "surface.command_search.open",
            ActionKind::SurfaceConversationListOpen => "surface.conversation_list.open",
            ActionKind::SurfaceGlobalSearchOpen => "surface.global_search.open",
            ActionKind::SurfaceKeybindingsOpen => "surface.keybindings.open",
            ActionKind::SurfaceLeftPanelToggle => "surface.left_panel.toggle",
            ActionKind::SurfaceList => "surface.list",
            ActionKind::SurfaceProjectExplorerOpen => "surface.project_explorer.open",
            ActionKind::SurfaceResourceCenterToggle => "surface.resource_center.toggle",
            ActionKind::SurfaceRightPanelToggle => "surface.right_panel.toggle",
            ActionKind::SurfaceSettingsOpen => "surface.settings.open",
            ActionKind::SurfaceThemePickerOpen => "surface.theme_picker.open",
            ActionKind::SurfaceVerticalTabsOpen => "surface.vertical_tabs.open",
            ActionKind::SurfaceVerticalTabsToggle => "surface.vertical_tabs.toggle",
            ActionKind::SurfaceWarpDriveOpen => "surface.warp_drive.open",
            ActionKind::SurfaceWarpDriveToggle => "surface.warp_drive.toggle",
            ActionKind::TabActivate => "tab.activate",
            ActionKind::TabClose => "tab.close",
            ActionKind::TabColorClear => "tab.color.clear",
            ActionKind::TabColorSet => "tab.color.set",
            ActionKind::TabCreate => "tab.create",
            ActionKind::TabInspect => "tab.inspect",
            ActionKind::TabList => "tab.list",
            ActionKind::TabMove => "tab.move",
            ActionKind::TabRename => "tab.rename",
            ActionKind::TabResetName => "tab.reset.name",
            ActionKind::ThemeDarkSet => "theme.dark.set",
            ActionKind::ThemeGet => "theme.get",
            ActionKind::ThemeLightSet => "theme.light.set",
            ActionKind::ThemeList => "theme.list",
            ActionKind::ThemeSet => "theme.set",
            ActionKind::ThemeSystemSet => "theme.system.set",
            ActionKind::WindowClose => "window.close",
            ActionKind::WindowCreate => "window.create",
            ActionKind::WindowFocus => "window.focus",
            ActionKind::WindowInspect => "window.inspect",
            ActionKind::WindowList => "window.list",
        }
    }

    /// Whether this bridge implements the action.
    pub fn is_implemented(&self) -> (implemented: bool)
        ensures
            implemented == action_implemented(*self),
    {
        match self {
            ActionKind::InstanceList | ActionKind::AppPing | ActionKind::AppVersion
            | ActionKind::TabCreate => true,
            _ => false,
        }
    }
}

/// The action with wire name `name`; an unknown name is not allowlisted.
pub fn action_kind_for_name(name: &str) -> (kind: Result<ActionKind, ControlError>)
    ensures
        match kind {
            Ok(k) => action_name(k) == name@,
            Err(e) => e.code == ErrorCode::NotAllowlisted
                && e.message@ == name@ + " is not an allowlisted local-control action"@
                && forall|k: ActionKind| action_name(k) != name@,
        },
{
    if str_eq(name, "action.inspect") {
        return Ok(ActionKind::ActionInspect);
    }
    if str_eq(name, "action.list") {
        return Ok(ActionKind::ActionList);
    }
    if str_eq(name, "app.active") {
        return Ok(ActionKind::AppActive);
    }
    if str_eq(name, "app.focus") {
        return Ok(ActionKind::AppFocus);
    }
    if str_eq(name, "app.ping") {
        return Ok(ActionKind::AppPing);
    }
    if str_eq(name, "app.version") {
        return Ok(ActionKind::AppVersion);
    }
    if str_eq(name, "appearance.font_size.decrease") {
        return Ok(ActionKind::AppearanceFontSizeDecrease);
    }
    if str_eq(name, "appearance.font_size.increase") {
        return Ok(ActionKind::AppearanceFontSizeIncrease);
    }
    if str_eq(name, "appearance.font_size.reset") {
        return Ok(ActionKind::AppearanceFontSizeReset);
    }
    if str_eq(name, "appearance.get") {
        return Ok(ActionKind::AppearanceGet);
    }
    if str_eq(name, "appearance.zoom.decrease") {
        return Ok(ActionKind::AppearanceZoomDecrease);
    }
    if str_eq(name, "appearance.zoom.increase") {
        return Ok(ActionKind::AppearanceZoomIncrease);
    }
    if str_eq(name, "appearance.zoom.reset") {
        return Ok(ActionKind::AppearanceZoomReset);
    }
    if str_eq(name, "block.get") {
        return Ok(ActionKind::BlockGet);
    }
    if str_eq(name, "block.list") {
        return Ok(ActionKind::BlockList);
    }
    if str_eq(name, "capability.inspect") {
        return Ok(ActionKind::CapabilityInspect);
    }
    if str_eq(name, "capability.list") {
        return Ok(ActionKind::CapabilityList);
    }
    if str_eq(name, "drive.env_var_collection.open") {
        return Ok(ActionKind::DriveEnvVarCollectionOpen);
    }
    if str_eq(name, "drive.inspect") {
        return Ok(ActionKind::DriveInspect);
    }
    if str_eq(name, "drive.list") {
        return Ok(ActionKind::DriveList);
    }
    if str_eq(name, "drive.notebook.open") {
        return Ok(ActionKind::DriveNotebookOpen);
    }
    if str_eq(name, "drive.object_share.open") {
        return Ok(ActionKind::DriveObjectShareOpen);
    }
    if str_eq(name, "drive.open") {
        return Ok(ActionKind::DriveOpen);
    }
    if str_eq(name, "file.delete") {
        return Ok(ActionKind::FileDelete);
    }
    if str_eq(name, "file.list") {
        return Ok(ActionKind::FileList);
    }
    if str_eq(name, "file.open") {
        return Ok(ActionKind::FileOpen);
    }
    if str_eq(name, "file.write") {
        return Ok(ActionKind::FileWrite);
    }
    if str_eq(name, "history.list") {
        return Ok(ActionKind::HistoryList);
    }
    if str_eq(name, "input.clear") {
        return Ok(ActionKind::InputClear);
    }
    if str_eq(name, "input.get") {
        return Ok(ActionKind::InputGet);
    }
    if str_eq(name, "input.insert") {
        return Ok(ActionKind::InputInsert);
    }
    if str_eq(name, "input.mode.set") {
        return Ok(ActionKind::InputModeSet);
    }
    if str_eq(name, "input.replace") {
        return Ok(ActionKind::InputReplace);
    }
    if str_eq(name, "instance.inspect") {
        return Ok(ActionKind::InstanceInspect);
    }
    if str_eq(name, "instance.list") {
        return Ok(ActionKind::InstanceList);
    }
    if str_eq(name, "keybinding.get") {
        return Ok(ActionKind::KeybindingGet);
    }
    if str_eq(name, "keybinding.list") {
        return Ok(ActionKind::KeybindingList);
    }
    if str_eq(name, "pane.close") {
        return Ok(ActionKind::PaneClose);
    }
    if str_eq(name, "pane.focus") {
        return Ok(ActionKind::PaneFocus);
    }
    if str_eq(name, "pane.inspect") {
        return Ok(ActionKind::PaneInspect);
    }
    if str_eq(name, "pane.list") {
        return Ok(ActionKind::PaneList);
    }
    if str_eq(name, "pane.maximize") {
        return Ok(ActionKind::PaneMaximize);
    }
    if str_eq(name, "pane.navigate") {
        return Ok(ActionKind::PaneNavigate);
    }
    if str_eq(name, "pane.rename") {
        return Ok(ActionKind::PaneRename);
    }
    if str_eq(name, "pane.reset.name") {
        return Ok(ActionKind::PaneResetName);
    }
    if str_eq(name, "pane.resize") {
        return Ok(ActionKind::PaneResize);
    }
    if str_eq(name, "pane.session.next") {
        return Ok(ActionKind::PaneSessionNext);
    }
    if str_eq(name, "pane.session.previous") {
        return Ok(ActionKind::PaneSessionPrevious);
    }
    if str_eq(name, "pane.split") {
        return Ok(ActionKind::PaneSplit);
    }
    if str_eq(name, "pane.unmaximize") {
        return Ok(ActionKind::PaneUnmaximize);
    }
    if str_eq(name, "project.open") {
        return Ok(ActionKind::ProjectOpen);
    }
    if str_eq(name, "session.activate") {
        return Ok(ActionKind::SessionActivate);
    }
    if str_eq(name, "session.inspect") {
        return Ok(ActionKind::SessionInspect);
    }
    if str_eq(name, "session.list") {
        return Ok(ActionKind::SessionList);
    }
    if str_eq(name, "session.next") {
        return Ok(ActionKind::SessionNext);
    }
    if str_eq(name, "session.previous") {
        return Ok(ActionKind::SessionPrevious);
    }
    if str_eq(name, "session.reopen") {
        return Ok(ActionKind::SessionReopen);
    }
    if str_eq(name, "session.reopen.closed") {
        return Ok(ActionKind::SessionReopenClosed);
    }
    if str_eq(name, "setting.get") {
        return Ok(ActionKind::SettingGet);
    }
    if str_eq(name, "setting.list") {
        return Ok(ActionKind::SettingList);
    }
    if str_eq(name, "setting.set") {
        return Ok(ActionKind::SettingSet);
    }
    if str_eq(name, "setting.toggle") {
        return Ok(ActionKind::SettingToggle);
    }
    if str_eq(name, "surface.agent_management.open") {
        return Ok(ActionKind::SurfaceAgentManagementOpen);
    }
    if str_eq(name, "surface.ai_assistant.toggle") {
        return Ok(ActionKind::SurfaceAiAssistantToggle);
    }
    if str_eq(name, "surface.code_review.open") {
        return Ok(ActionKind::SurfaceCodeReviewOpen);
    }
    if str_eq(name, "surface.code_review.toggle") {
        return Ok(ActionKind::SurfaceCodeReviewToggle);
    }
    if str_eq(name, "surface.command_palette.open") {
        return Ok(ActionKind::SurfaceCommandPaletteOpen);
    }
    if str_eq(name, "surface.command_search.open") {
        return Ok(ActionKind::SurfaceCommandSearchOpen);
    }
    if str_eq(name, "surface.conversation_list.open") {
        return Ok(ActionKind::SurfaceConversationListOpen);
    }
    if str_eq(name, "surface.global_search.open") {
        return Ok(ActionKind::SurfaceGlobalSearchOpen);
    }
    if str_eq(name, "surface.keybindings.open") {
        return Ok(ActionKind::SurfaceKeybindingsOpen);
    }
    if str_eq(name, "surface.left_panel.toggle") {
        return Ok(ActionKind::SurfaceLeftPanelToggle);
    }
    if str_eq(name, "surface.list") {
        return Ok(ActionKind::SurfaceList);
    }
    if str_eq(name, "surface.project_explorer.open") {
        return Ok(ActionKind::SurfaceProjectExplorerOpen);
    }
    if str_eq(name, "surface.resource_center.toggle") {
        return Ok(ActionKind::SurfaceResourceCenterToggle);
    }
    if str_eq(name, "surface.right_panel.toggle") {
        return Ok(ActionKind::SurfaceRightPanelToggle);
    }
    if str_eq(name, "surface.settings.open") {
        return Ok(ActionKind::SurfaceSettingsOpen);
    }
    if str_eq(name, "surface.theme_picker.open") {
        return Ok(ActionKind::SurfaceThemePickerOpen);
    }
    if str_eq(name, "surface.vertical_tabs.open") {
        return Ok(ActionKind::SurfaceVerticalTabsOpen);
    }
    if str_eq(name, "surface.vertical_tabs.toggle") {
        return Ok(ActionKind::SurfaceVerticalTabsToggle);
    }
    if str_eq(name, "surface.warp_drive.open") {
        return Ok(ActionKind::SurfaceWarpDriveOpen);
    }
    if str_eq(name, "surface.warp_drive.toggle") {
        return Ok(ActionKind::SurfaceWarpDriveToggle);
    }
    if str_eq(name, "tab.activate") {
        return Ok(ActionKind::TabActivate);
    }
    if str_eq(name, "tab.close") {
        return Ok(ActionKind::TabClose);
    }
    if str_eq(name, "tab.color.clear") {
        return Ok(ActionKind::TabColorClear);
    }
    if str_eq(name, "tab.color.set") {
        return Ok(ActionKind::TabColorSet);
    }
    if str_eq(name, "tab.create") {
        return Ok(ActionKind::TabCreate);
    }
    if str_eq(name, "tab.inspect") {
        return Ok(ActionKind::TabInspect);
    }
    if str_eq(name, "tab.list") {
        return Ok(ActionKind::TabList);
    }
    if str_eq(name, "tab.move") {
        return Ok(ActionKind::TabMove);
    }
    if str_eq(name, "tab.rename") {
        return Ok(ActionKind::TabRename);
    }
    if str_eq(name, "tab.reset.name") {
        return Ok(ActionKind::TabResetName);
    }
    if str_eq(name, "theme.dark.set") {
        return Ok(ActionKind::ThemeDarkSet);
    }
    if str_eq(name, "theme.get") {
        return Ok(ActionKind::ThemeGet);
    }
    if str_eq(name, "theme.light.set") {
        return Ok(ActionKind::ThemeLightSet);
    }
    if str_eq(name, "theme.list") {
        return Ok(ActionKind::ThemeList);
    }
    if str_eq(name, "theme.set") {
        return Ok(ActionKind::ThemeSet);
    }
    if str_eq(name, "theme.system.set") {
        return Ok(ActionKind::ThemeSystemSet);
    }
    if str_eq(name, "window.close") {
        return Ok(ActionKind::WindowClose);
    }
    if str_eq(name, "window.create") {
        return Ok(ActionKind::WindowCreate);
    }
    if str_eq(name, "window.focus") {
        return Ok(ActionKind::WindowFocus);
    }
    if str_eq(name, "window.inspect") {
        return Ok(ActionKind::WindowInspect);
    }
    if str_eq(name, "window.list") {
        return Ok(ActionKind::WindowList);
    }
    Err(ControlError::new(
        ErrorCode::NotAllowlisted,
        concat(name, " is not an allowlisted local-control action"),
    ))
}

/// The actions this bridge advertises, in order.
pub open spec fn implemented_actions() -> Seq<ActionKind> {
    seq![ActionKind::InstanceList, ActionKind::AppPing, ActionKind::AppVersion, ActionKind::TabCreate]
}

/// The actions this bridge advertises as capabilities.
pub fn capabilities() -> (actions: Vec<ActionKind>)
    ensures
        actions@ == implemented_actions(),
{
    let mut actions: Vec<ActionKind> = Vec::new();
    actions.push(ActionKind::InstanceList);
    actions.push(ActionKind::AppPing);
    actions.push(ActionKind::AppVersion);
    actions.push(ActionKind::TabCreate);
    assert(actions@ =~= implemented_actions());
    actions
}

/// Every advertised action is implemented, and every implemented action is advertised.
pub proof fn lemma_capabilities_are_the_implemented_actions(action: ActionKind)
    ensures
        implemented_actions().contains(action) <==> action_implemented(action),
{
    if action_implemented(action) {
        if action == ActionKind::InstanceList {
            assert(implemented_actions()[0] == action);
        } else if action == ActionKind::AppPing {
            assert(implemented_actions()[1] == action);
        } else if action == ActionKind::AppVersion {
            assert(implemented_actions()[2] == action);
        } else {
            assert(implemented_actions()[3] == action);
        }
    }
}

} // verus!
