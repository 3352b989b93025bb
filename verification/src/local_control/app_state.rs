//! The app-state actions of local control: which workspace, pane-group or
//! terminal command each action with its parameters becomes.
use vstd::prelude::*;
use crate::local_control::protocol::{action_name, ActionKind, ControlError, ErrorCode};
use crate::local_control::selectors::{copy_tab_target, PaneTarget, TabTarget, TargetSelector};
use crate::local_control::tabs::TabCloseMode;
use crate::text::concat;

verus! {

/// A direction parameter.
#[derive(Debug, Clone, Copy, PartialEq, Eq, Structural)]
pub enum ControlDirection {
    Left,
    Right,
    Up,
    Down,
    Previous,
    Next,
}

/// How `tab.activate` picks a tab.
#[derive(Debug, Clone, Copy, PartialEq, Eq, Structural)]
pub enum TabActivationMode {
    Target,
    Previous,
    Next,
    Last,
}

/// The input mode of a terminal.
#[derive(Debug, Clone, Copy, PartialEq, Eq, Structural)]
pub enum InputMode {
    Terminal,
    Agent,
}

/// The parameters of `file.open`.
#[derive(Debug, Clone)]
pub struct FileOpenParams {
    pub path: String,
    pub line: Option<u64>,
    pub column: Option<u64>,
}

/// The decoded parameters of an app-state action.
#[derive(Debug, Clone)]
pub enum ActionParams {
    Empty,
    TabActivate { mode: TabActivationMode },
    TabClose { mode: TabCloseMode },
    Direction { direction: ControlDirection },
    Resize { direction: ControlDirection },
    Rename { title: String },
    Text { text: String },
    InputMode { mode: InputMode },
    PageQuery { query: Option<String> },
    Query { query: Option<String> },
    FileOpen(FileOpenParams),
    Path { path: String },
    DriveObjectId { id: String },
}

/// A pane split direction.
#[derive(Debug, Clone, Copy, PartialEq, Eq, Structural)]
pub enum PaneDirection {
    Left,
    Right,
    Up,
    Down,
}

/// A command for the active tab's pane group.
#[derive(Debug, Clone, Copy, PartialEq, Eq, Structural)]
pub enum PaneGroupCommand {
    Add(PaneDirection),
    NavigateLeft,
    NavigateRight,
    NavigateUp,
    NavigateDown,
    NavigatePrev,
    NavigateNext,
    ResizeLeft,
    ResizeRight,
    ResizeUp,
    ResizeDown,
    RemoveActive,
}

/// A command for the active window's workspace.
#[derive(Debug, Clone)]
pub enum WorkspaceCommand {
    AddWindow,
    CloseWindow,
    /// Activate the tab a `tab.activate` target mode selects.
    ActivateTargetTab { tab: Option<TabTarget> },
    ActivatePrevTab,
    ActivateNextTab,
    ActivateLastTab,
    MoveActiveTabLeft,
    MoveActiveTabRight,
    CloseActiveTab,
    CloseNonActiveTabs,
    CloseTabsRightActiveTab,
    SetActiveTabName(String),
    ResetActiveTabName,
    ClearActiveTabColor,
    CyclePrevSession,
    CycleNextSession,
    ReopenClosedSession,
    InsertInInput { content: String, replace_buffer: bool },
    ShowSettings,
    ShowSettingsPageWithSearch(String),
    OpenCommandPalette { query: Option<String> },
    ShowCommandSearch { query: Option<String> },
    OpenWarpDrive,
    ToggleWarpDrive,
    ToggleResourceCenter,
    ToggleAiAssistant,
    ToggleRightPanel,
    ToggleLeftPanel,
    ToggleVerticalTabsPanel,
    OpenFileInNewTab { path: String, line: Option<usize>, column: Option<usize> },
    OpenRepository { path: String },
}

/// What an app-state action does.
#[derive(Debug, Clone)]
pub enum AppStateCommand {
    /// Show the target window and focus the app.
    FocusWindow,
    Workspace(WorkspaceCommand),
    PaneGroup(PaneGroupCommand),
    /// Focus a pane of the active tab: the active pane (nothing to do) or the pane at an index.
    FocusPane { index: Option<usize> },
    /// Maximize (or restore) the focused pane if it is not already.
    SetPaneMaximized(bool),
    RenamePane(String),
    ResetPaneName,
    SetInputMode(InputMode),
    /// Open a Warp Drive object by server id, in the given way.
    OpenDriveObject { id: String, how: ActionKind },
}

/// Refuses parameters of the wrong shape for `action`.
fn invalid_params(action: ActionKind) -> (error: ControlError)
    ensures
        error.code == ErrorCode::InvalidParams,
        error.message@ == action_name(action) + " received parameters with the wrong shape"@,
{
    ControlError::new(
        ErrorCode::InvalidParams,
        concat(action.as_str(), " received parameters with the wrong shape"),
    )
}

/// The split direction of a direction parameter: previous and next do not split.
pub open spec fn split_direction(direction: ControlDirection) -> Option<PaneDirection> {
    match direction {
        ControlDirection::Left => Some(PaneDirection::Left),
        ControlDirection::Right => Some(PaneDirection::Right),
        ControlDirection::Up => Some(PaneDirection::Up),
        ControlDirection::Down => Some(PaneDirection::Down),
        _ => None,
    }
}

/// `pane.navigate` moves focus in the direction asked for: left navigates
/// left, right right, up up, down down, previous to the previous pane and
/// next to the next one.
pub proof fn lemma_navigate_follows_direction(params: ActionParams, target: TargetSelector, command: AppStateCommand)
    requires
        app_state_command_ok(ActionKind::PaneNavigate, params, target, command),
    ensures
        params matches ActionParams::Direction { direction } && ({
            &&& direction == ControlDirection::Left ==> command == AppStateCommand::PaneGroup(PaneGroupCommand::NavigateLeft)
            &&& direction == ControlDirection::Right ==> command == AppStateCommand::PaneGroup(PaneGroupCommand::NavigateRight)
            &&& direction == ControlDirection::Up ==> command == AppStateCommand::PaneGroup(PaneGroupCommand::NavigateUp)
            &&& direction == ControlDirection::Down ==> command == AppStateCommand::PaneGroup(PaneGroupCommand::NavigateDown)
            &&& direction == ControlDirection::Previous ==> command == AppStateCommand::PaneGroup(PaneGroupCommand::NavigatePrev)
            &&& direction == ControlDirection::Next ==> command == AppStateCommand::PaneGroup(PaneGroupCommand::NavigateNext)
        }),
{
}

/// The navigation command of a direction parameter.
pub open spec fn navigate_command(direction: ControlDirection) -> PaneGroupCommand {
    match direction {
        ControlDirection::Left => PaneGroupCommand::NavigateLeft,
        ControlDirection::Right => PaneGroupCommand::NavigateRight,
        ControlDirection::Up => PaneGroupCommand::NavigateUp,
        ControlDirection::Down => PaneGroupCommand::NavigateDown,
        ControlDirection::Previous => PaneGroupCommand::NavigatePrev,
        ControlDirection::Next => PaneGroupCommand::NavigateNext,
    }
}

/// The resize command of a direction parameter: previous and next do not resize.
pub open spec fn resize_command(direction: ControlDirection) -> Option<PaneGroupCommand> {
    match direction {
        ControlDirection::Left => Some(PaneGroupCommand::ResizeLeft),
        ControlDirection::Right => Some(PaneGroupCommand::ResizeRight),
        ControlDirection::Up => Some(PaneGroupCommand::ResizeUp),
        ControlDirection::Down => Some(PaneGroupCommand::ResizeDown),
        _ => None,
    }
}

/// The focus command for a pane selector: the active pane, or an index;
/// pane ids are stale; no selector is invalid.
pub open spec fn pane_focus_command(pane: Option<PaneTarget>) -> Result<Option<usize>, ErrorCode> {
    match pane {
        None => Err(ErrorCode::InvalidSelector),
        Some(PaneTarget::Active) => Ok(None),
        Some(PaneTarget::Index { index }) => Ok(Some(index as usize)),
        Some(PaneTarget::Id { .. }) => Err(ErrorCode::StaleTarget),
    }
}

/// Whether an optional string parameter holds the given text.
pub open spec fn same_query(a: Option<String>, b: Option<String>) -> bool {
    match (a, b) {
        (Some(x), Some(y)) => x@ == y@,
        (None, None) => true,
        _ => false,
    }
}

/// Whether the app-state handler takes `action`, and with which parameter
/// shape; the other actions are not app-state actions.
pub open spec fn app_state_command_ok(
    action: ActionKind,
    params: ActionParams,
    target: TargetSelector,
    command: AppStateCommand,
) -> bool {
    match action {
        ActionKind::AppFocus | ActionKind::WindowFocus => command is FocusWindow,
        ActionKind::WindowCreate => command matches AppStateCommand::Workspace(WorkspaceCommand::AddWindow),
        ActionKind::WindowClose => command matches AppStateCommand::Workspace(WorkspaceCommand::CloseWindow),
        ActionKind::TabActivate => match params {
            ActionParams::TabActivate { mode } => match mode {
                TabActivationMode::Target => command matches AppStateCommand::Workspace(WorkspaceCommand::ActivateTargetTab { tab }) && tab == target.tab,
                TabActivationMode::Previous => command matches AppStateCommand::Workspace(WorkspaceCommand::ActivatePrevTab),
                TabActivationMode::Next => command matches AppStateCommand::Workspace(WorkspaceCommand::ActivateNextTab),
                TabActivationMode::Last => command matches AppStateCommand::Workspace(WorkspaceCommand::ActivateLastTab),
            },
            ActionParams::Empty => command matches AppStateCommand::Workspace(WorkspaceCommand::ActivateTargetTab { tab }) && tab == target.tab,
            _ => false,
        },
        ActionKind::TabMove => match params {
            ActionParams::Direction { direction } => match direction {
                ControlDirection::Left | ControlDirection::Previous => command matches AppStateCommand::Workspace(WorkspaceCommand::MoveActiveTabLeft),
                _ => command matches AppStateCommand::Workspace(WorkspaceCommand::MoveActiveTabRight),
            },
            _ => false,
        },
        ActionKind::TabClose => {
            let mode = match params {
                ActionParams::TabClose { mode } => Some(mode),
                ActionParams::Empty => Some(TabCloseMode::Active),
                _ => None,
            };
            match mode {
                Some(TabCloseMode::Target) | Some(TabCloseMode::Active) => command matches AppStateCommand::Workspace(WorkspaceCommand::CloseActiveTab),
                Some(TabCloseMode::Others) => command matches AppStateCommand::Workspace(WorkspaceCommand::CloseNonActiveTabs),
                Some(TabCloseMode::RightOf) => command matches AppStateCommand::Workspace(WorkspaceCommand::CloseTabsRightActiveTab),
                None => false,
            }
        },
        ActionKind::TabRename => params matches ActionParams::Rename { title }
            && command matches AppStateCommand::Workspace(WorkspaceCommand::SetActiveTabName(t)) && t@ == title@,
        ActionKind::TabResetName => command matches AppStateCommand::Workspace(WorkspaceCommand::ResetActiveTabName),
        ActionKind::TabColorClear => command matches AppStateCommand::Workspace(WorkspaceCommand::ClearActiveTabColor),
        ActionKind::PaneSplit => params matches ActionParams::Direction { direction }
            && split_direction(direction) matches Some(d)
            && command == AppStateCommand::PaneGroup(PaneGroupCommand::Add(d)),
        ActionKind::PaneNavigate => params matches ActionParams::Direction { direction }
            && command == AppStateCommand::PaneGroup(navigate_command(direction)),
        ActionKind::PaneResize => params matches ActionParams::Resize { direction }
            && resize_command(direction) matches Some(c)
            && command == AppStateCommand::PaneGroup(c),
        ActionKind::PaneFocus | ActionKind::SessionActivate => pane_focus_command(target.pane) matches Ok(index)
            && command == AppStateCommand::FocusPane { index },
        ActionKind::PaneMaximize => command == AppStateCommand::SetPaneMaximized(true),
        ActionKind::PaneUnmaximize => command == AppStateCommand::SetPaneMaximized(false),
        ActionKind::PaneClose => command == AppStateCommand::PaneGroup(PaneGroupCommand::RemoveActive),
        ActionKind::PaneRename => params matches ActionParams::Rename { title }
            && command matches AppStateCommand::RenamePane(t) && t@ == title@,
        ActionKind::PaneResetName => command is ResetPaneName,
        ActionKind::SessionPrevious => command matches AppStateCommand::Workspace(WorkspaceCommand::CyclePrevSession),
        ActionKind::SessionNext => command matches AppStateCommand::Workspace(WorkspaceCommand::CycleNextSession),
        ActionKind::SessionReopenClosed => command matches AppStateCommand::Workspace(WorkspaceCommand::ReopenClosedSession),
        ActionKind::InputInsert | ActionKind::InputReplace => params matches ActionParams::Text { text }
            && command matches AppStateCommand::Workspace(WorkspaceCommand::InsertInInput { content, replace_buffer })
            && content@ == text@ && replace_buffer == (action == ActionKind::InputReplace),
        ActionKind::InputClear => command matches AppStateCommand::Workspace(WorkspaceCommand::InsertInInput { content, replace_buffer })
            && content@.len() == 0 && replace_buffer,
        ActionKind::InputModeSet => params matches ActionParams::InputMode { mode }
            && command == AppStateCommand::SetInputMode(mode),
        ActionKind::SurfaceSettingsOpen => match params {
            ActionParams::PageQuery { query: Some(q) } => command matches AppStateCommand::Workspace(WorkspaceCommand::ShowSettingsPageWithSearch(s)) && s@ == q@,
            ActionParams::PageQuery { query: None } | ActionParams::Empty => command matches AppStateCommand::Workspace(WorkspaceCommand::ShowSettings),
            _ => false,
        },
        ActionKind::SurfaceCommandPaletteOpen => match params {
            ActionParams::Query { query } => command matches AppStateCommand::Workspace(WorkspaceCommand::OpenCommandPalette { query: q }) && same_query(q, query),
            ActionParams::Empty => command matches AppStateCommand::Workspace(WorkspaceCommand::OpenCommandPalette { query: q }) && q is None,
            _ => false,
        },
        ActionKind::SurfaceCommandSearchOpen => match params {
            ActionParams::Query { query } => command matches AppStateCommand::Workspace(WorkspaceCommand::ShowCommandSearch { query: q }) && same_query(q, query),
            ActionParams::Empty => command matches AppStateCommand::Workspace(WorkspaceCommand::ShowCommandSearch { query: q }) && q is None,
            _ => false,
        },
        ActionKind::SurfaceWarpDriveOpen => command matches AppStateCommand::Workspace(WorkspaceCommand::OpenWarpDrive),
        ActionKind::SurfaceWarpDriveToggle => command matches AppStateCommand::Workspace(WorkspaceCommand::ToggleWarpDrive),
        ActionKind::SurfaceResourceCenterToggle => command matches AppStateCommand::Workspace(WorkspaceCommand::ToggleResourceCenter),
        ActionKind::SurfaceAiAssistantToggle => command matches AppStateCommand::Workspace(WorkspaceCommand::ToggleAiAssistant),
        ActionKind::SurfaceCodeReviewToggle | ActionKind::SurfaceRightPanelToggle => command matches AppStateCommand::Workspace(WorkspaceCommand::ToggleRightPanel),
        ActionKind::SurfaceLeftPanelToggle => command matches AppStateCommand::Workspace(WorkspaceCommand::ToggleLeftPanel),
        ActionKind::SurfaceVerticalTabsToggle => command matches AppStateCommand::Workspace(WorkspaceCommand::ToggleVerticalTabsPanel),
        ActionKind::FileOpen => params matches ActionParams::FileOpen(p)
            && command matches AppStateCommand::Workspace(WorkspaceCommand::OpenFileInNewTab { path, line, column })
            && path@ == p.path@
            && line == (match p.line { Some(l) => Some(l as usize), None => None })
            && column == (match p.line {
                Some(_) => match p.column { Some(c) => Some(c as usize), None => None },
                None => None,
            }),
        ActionKind::ProjectOpen => params matches ActionParams::Path { path }
            && command matches AppStateCommand::Workspace(WorkspaceCommand::OpenRepository { path: p }) && p@ == path@,
        ActionKind::DriveOpen | ActionKind::DriveNotebookOpen | ActionKind::DriveEnvVarCollectionOpen
        | ActionKind::DriveObjectShareOpen => params matches ActionParams::DriveObjectId { id }
            && command matches AppStateCommand::OpenDriveObject { id: i, how } && i@ == id@ && how == action,
        _ => false,
    }
}

/// The error code when no command is owed: the action is not an app-state
/// action (unsupported), a pane focus has a bad selector, or the parameters
/// have the wrong shape.
pub open spec fn app_state_refusal(action: ActionKind, target: TargetSelector) -> ErrorCode {
    match action {
        ActionKind::PaneFocus | ActionKind::SessionActivate => match pane_focus_command(target.pane) {
            Err(code) => code,
            Ok(_) => ErrorCode::InvalidParams,
        },
        ActionKind::AppFocus | ActionKind::WindowFocus | ActionKind::WindowCreate | ActionKind::WindowClose
        | ActionKind::TabActivate | ActionKind::TabMove | ActionKind::TabClose | ActionKind::TabRename
        | ActionKind::TabResetName | ActionKind::TabColorClear | ActionKind::PaneSplit
        | ActionKind::PaneNavigate | ActionKind::PaneResize | ActionKind::PaneMaximize
        | ActionKind::PaneUnmaximize | ActionKind::PaneClose | ActionKind::PaneRename
        | ActionKind::PaneResetName | ActionKind::SessionPrevious | ActionKind::SessionNext
        | ActionKind::SessionReopenClosed | ActionKind::InputInsert | ActionKind::InputReplace
        | ActionKind::InputClear | ActionKind::InputModeSet | ActionKind::SurfaceSettingsOpen
        | ActionKind::SurfaceCommandPaletteOpen | ActionKind::SurfaceCommandSearchOpen
        | ActionKind::SurfaceWarpDriveOpen | ActionKind::SurfaceWarpDriveToggle
        | ActionKind::SurfaceResourceCenterToggle | ActionKind::SurfaceAiAssistantToggle
        | ActionKind::SurfaceCodeReviewToggle | ActionKind::SurfaceRightPanelToggle
        | ActionKind::SurfaceLeftPanelToggle | ActionKind::SurfaceVerticalTabsToggle
        | ActionKind::FileOpen | ActionKind::ProjectOpen | ActionKind::DriveOpen
        | ActionKind::DriveNotebookOpen | ActionKind::DriveEnvVarCollectionOpen
        | ActionKind::DriveObjectShareOpen => ErrorCode::InvalidParams,
        _ => ErrorCode::UnsupportedAction,
    }
}

/// Whether a character is a control character (`char::is_control`): C0
/// controls, DEL and C1 controls, which include line breaks, tabs and the
/// escape that starts a terminal control sequence.
pub open spec fn is_control_char(c: char) -> bool {
    (c as u32) < 0x20 || (0x7f <= (c as u32) && (c as u32) <= 0x9f)
}

/// Whether text may be staged in the terminal input: no control characters.
pub open spec fn staged_text_safe(text: Seq<char>) -> bool {
    forall|i: int| 0 <= i < text.len() ==> !is_control_char(#[trigger] text[i])
}

/// Refuses staged input text that holds a line break, a tab, an escape or
/// another control character, which would run or alter commands in the
/// terminal instead of being typed.
pub fn validate_staged_input_text(action: ActionKind, text: &str) -> (result: Result<(), ControlError>)
    ensures
        result is Ok <==> staged_text_safe(text@),
        result matches Err(e) ==> e.code == ErrorCode::InvalidParams
            && e.message@ == action_name(action) + " text must not contain line breaks or control characters"@
            && e.details is None,
{
    let n = text.unicode_len();
    let mut i: usize = 0;
    while i < n
        invariant
            n == text@.len(),
            i <= n,
            forall|k: int| 0 <= k < i ==> !is_control_char(#[trigger] text@[k]),
        decreases n - i,
    {
        let c = text.get_char(i);
        let code = c as u32;
        if code < 0x20 || (0x7f <= code && code <= 0x9f) {
            assert(is_control_char(text@[i as int]));
            return Err(ControlError::new(
                ErrorCode::InvalidParams,
                concat(action.as_str(), " text must not contain line breaks or control characters"),
            ));
        }
        i = i + 1;
    }
    Ok(())
}

/// The message of the error `app_state_command` gives.
pub open spec fn app_state_refusal_message(action: ActionKind, params: ActionParams, target: TargetSelector) -> Seq<char> {
    let wrong_shape = action_name(action) + " received parameters with the wrong shape"@;
    match action {
        ActionKind::PaneFocus | ActionKind::SessionActivate => match target.pane {
            None => "pane focus requires a pane target"@,
            Some(PaneTarget::Id { .. }) => "pane id selectors are not resolvable by this shard"@,
            _ => wrong_shape,
        },
        ActionKind::TabMove => if params matches ActionParams::Direction { direction }
            && (direction == ControlDirection::Up || direction == ControlDirection::Down) {
            "tab.move only accepts left, right, previous, or next"@
        } else {
            wrong_shape
        },
        ActionKind::PaneSplit => if params matches ActionParams::Direction { direction } && split_direction(direction) is None {
            "pane.split only accepts left, right, up, or down"@
        } else {
            wrong_shape
        },
        ActionKind::PaneResize => if params matches ActionParams::Resize { direction } && resize_command(direction) is None {
            "pane.resize only accepts left, right, up, or down"@
        } else {
            wrong_shape
        },
        ActionKind::InputInsert | ActionKind::InputReplace => if params matches ActionParams::Text { text } && !staged_text_safe(text@) {
            action_name(action) + " text must not contain line breaks or control characters"@
        } else {
            wrong_shape
        },
        ActionKind::FileOpen => match params {
            ActionParams::FileOpen(p) => if p.line matches Some(l) && l > usize::MAX {
                "file.open line is out of range"@
            } else {
                "file.open column is out of range"@
            },
            _ => wrong_shape,
        },
        _ => if app_state_refusal(action, target) == ErrorCode::UnsupportedAction {
            action_name(action) + " is not an app-state handler action"@
        } else {
            wrong_shape
        },
    }
}

/// Whether the line (and, with a line, the column) of `file.open` fit in `usize`.
pub open spec fn line_and_column_fit(p: FileOpenParams) -> bool {
    match p.line {
        Some(l) => l <= usize::MAX && (match p.column {
            Some(c) => c <= usize::MAX,
            None => true,
        }),
        None => true,
    }
}

/// Whether a command is owed for the action and parameters: the action is
/// an app-state action, its parameters have the shape it takes, and a pane
/// focus has a usable selector.
pub open spec fn app_state_accepts(action: ActionKind, params: ActionParams, target: TargetSelector) -> bool {
    match action {
        ActionKind::AppFocus | ActionKind::WindowFocus | ActionKind::WindowCreate | ActionKind::WindowClose
        | ActionKind::TabResetName | ActionKind::TabColorClear | ActionKind::PaneMaximize
        | ActionKind::PaneUnmaximize | ActionKind::PaneClose | ActionKind::PaneResetName
        | ActionKind::SessionPrevious | ActionKind::SessionNext | ActionKind::SessionReopenClosed
        | ActionKind::InputClear | ActionKind::SurfaceWarpDriveOpen | ActionKind::SurfaceWarpDriveToggle
        | ActionKind::SurfaceResourceCenterToggle | ActionKind::SurfaceAiAssistantToggle
        | ActionKind::SurfaceCodeReviewToggle | ActionKind::SurfaceRightPanelToggle
        | ActionKind::SurfaceLeftPanelToggle | ActionKind::SurfaceVerticalTabsToggle => true,
        ActionKind::TabActivate => params is TabActivate || params is Empty,
        ActionKind::TabMove => params matches ActionParams::Direction { direction }
            && direction != ControlDirection::Up && direction != ControlDirection::Down,
        ActionKind::TabClose => params is TabClose || params is Empty,
        ActionKind::TabRename | ActionKind::PaneRename => params is Rename,
        ActionKind::PaneSplit => params matches ActionParams::Direction { direction } && split_direction(direction) is Some,
        ActionKind::PaneNavigate => params is Direction,
        ActionKind::PaneResize => params matches ActionParams::Resize { direction } && resize_command(direction) is Some,
        ActionKind::PaneFocus | ActionKind::SessionActivate => pane_focus_command(target.pane) is Ok,
        ActionKind::InputInsert | ActionKind::InputReplace => params matches ActionParams::Text { text } && staged_text_safe(text@),
        ActionKind::InputModeSet => params is InputMode,
        ActionKind::SurfaceSettingsOpen => params is PageQuery || params is Empty,
        ActionKind::SurfaceCommandPaletteOpen | ActionKind::SurfaceCommandSearchOpen => params is Query || params is Empty,
        ActionKind::FileOpen => params matches ActionParams::FileOpen(p) && line_and_column_fit(p),
        ActionKind::ProjectOpen => params is Path,
        ActionKind::DriveOpen | ActionKind::DriveNotebookOpen | ActionKind::DriveEnvVarCollectionOpen
        | ActionKind::DriveObjectShareOpen => params is DriveObjectId,
        _ => false,
    }
}

/// The command of an app-state action on windows and tabs.
fn window_tab_command(action: ActionKind, params: ActionParams, target: &TargetSelector) -> (result: Result<AppStateCommand, ControlError>)
    requires
        matches!(action, ActionKind::AppFocus | ActionKind::WindowFocus
        | ActionKind::WindowCreate | ActionKind::WindowClose | ActionKind::TabActivate
        | ActionKind::TabMove | ActionKind::TabClose | ActionKind::TabRename
        | ActionKind::TabResetName | ActionKind::TabColorClear),
    ensures
        result is Ok <==> app_state_accepts(action, params, *target),
        match result {
            Ok(c) => app_state_command_ok(action, params, *target, c),
            Err(e) => e.code == app_state_refusal(action, *target)
                && e.message@ == app_state_refusal_message(action, params, *target),
        },
{
    match action {
        ActionKind::AppFocus | ActionKind::WindowFocus => Ok(AppStateCommand::FocusWindow),
        ActionKind::WindowCreate => Ok(AppStateCommand::Workspace(WorkspaceCommand::AddWindow)),
        ActionKind::WindowClose => Ok(AppStateCommand::Workspace(WorkspaceCommand::CloseWindow)),
        ActionKind::TabActivate => match params {
            ActionParams::TabActivate { mode } => match mode {
                TabActivationMode::Target => Ok(AppStateCommand::Workspace(WorkspaceCommand::ActivateTargetTab {
                    tab: copy_tab_target(&target.tab),
                })),
                TabActivationMode::Previous => Ok(AppStateCommand::Workspace(WorkspaceCommand::ActivatePrevTab)),
                TabActivationMode::Next => Ok(AppStateCommand::Workspace(WorkspaceCommand::ActivateNextTab)),
                TabActivationMode::Last => Ok(AppStateCommand::Workspace(WorkspaceCommand::ActivateLastTab)),
            },
            ActionParams::Empty => Ok(AppStateCommand::Workspace(WorkspaceCommand::ActivateTargetTab {
                tab: copy_tab_target(&target.tab),
            })),
            _ => Err(invalid_params(action)),
        },
        ActionKind::TabMove => match params {
            ActionParams::Direction { direction } => match direction {
                ControlDirection::Left | ControlDirection::Previous => Ok(AppStateCommand::Workspace(WorkspaceCommand::MoveActiveTabLeft)),
                ControlDirection::Right | ControlDirection::Next => Ok(AppStateCommand::Workspace(WorkspaceCommand::MoveActiveTabRight)),
                ControlDirection::Up | ControlDirection::Down => Err(ControlError::new(
                    ErrorCode::InvalidParams,
                    "tab.move only accepts left, right, previous, or next".to_owned(),
                )),
            },
            _ => Err(invalid_params(action)),
        },
        ActionKind::TabClose => {
            let mode = match params {
                ActionParams::TabClose { mode } => mode,
                ActionParams::Empty => TabCloseMode::Active,
                _ => {
                    return Err(invalid_params(action));
                },
            };
            match mode {
                TabCloseMode::Target | TabCloseMode::Active => Ok(AppStateCommand::Workspace(WorkspaceCommand::CloseActiveTab)),
                TabCloseMode::Others => Ok(AppStateCommand::Workspace(WorkspaceCommand::CloseNonActiveTabs)),
                TabCloseMode::RightOf => Ok(AppStateCommand::Workspace(WorkspaceCommand::CloseTabsRightActiveTab)),
            }
        },
        ActionKind::TabRename => match params {
            ActionParams::Rename { title } => Ok(AppStateCommand::Workspace(WorkspaceCommand::SetActiveTabName(title))),
            _ => Err(invalid_params(action)),
        },
        ActionKind::TabResetName => Ok(AppStateCommand::Workspace(WorkspaceCommand::ResetActiveTabName)),
        ActionKind::TabColorClear => Ok(AppStateCommand::Workspace(WorkspaceCommand::ClearActiveTabColor)),
        _ => Err(invalid_params(action)),
    }
}

/// The command of an app-state action on panes of the active tab.
fn pane_command(action: ActionKind, params: ActionParams, target: &TargetSelector) -> (result: Result<AppStateCommand, ControlError>)
    requires
        matches!(action, ActionKind::PaneSplit | ActionKind::PaneNavigate
        | ActionKind::PaneResize | ActionKind::PaneFocus | ActionKind::SessionActivate
        | ActionKind::PaneMaximize | ActionKind::PaneUnmaximize | ActionKind::PaneClose
        | ActionKind::PaneRename | ActionKind::PaneResetName),
    ensures
        result is Ok <==> app_state_accepts(action, params, *target),
        match result {
            Ok(c) => app_state_command_ok(action, params, *target, c),
            Err(e) => e.code == app_state_refusal(action, *target)
                && e.message@ == app_state_refusal_message(action, params, *target),
        },
{
    match action {
        ActionKind::PaneSplit => match params {
            ActionParams::Direction { direction } => match direction {
                ControlDirection::Left => Ok(AppStateCommand::PaneGroup(PaneGroupCommand::Add(PaneDirection::Left))),
                ControlDirection::Right => Ok(AppStateCommand::PaneGroup(PaneGroupCommand::Add(PaneDirection::Right))),
                ControlDirection::Up => Ok(AppStateCommand::PaneGroup(PaneGroupCommand::Add(PaneDirection::Up))),
                ControlDirection::Down => Ok(AppStateCommand::PaneGroup(PaneGroupCommand::Add(PaneDirection::Down))),
                ControlDirection::Previous | ControlDirection::Next => Err(ControlError::new(
                    ErrorCode::InvalidParams,
                    "pane.split only accepts left, right, up, or down".to_owned(),
                )),
            },
            _ => Err(invalid_params(action)),
        },
        ActionKind::PaneNavigate => match params {
            ActionParams::Direction { direction } => Ok(AppStateCommand::PaneGroup(match direction {
                ControlDirection::Left => PaneGroupCommand::NavigateLeft,
                ControlDirection::Right => PaneGroupCommand::NavigateRight,
                ControlDirection::Up => PaneGroupCommand::NavigateUp,
                ControlDirection::Down => PaneGroupCommand::NavigateDown,
                ControlDirection::Previous => PaneGroupCommand::NavigatePrev,
                ControlDirection::Next => PaneGroupCommand::NavigateNext,
            })),
            _ => Err(invalid_params(action)),
        },
        ActionKind::PaneResize => match params {
            ActionParams::Resize { direction } => match direction {
                ControlDirection::Left => Ok(AppStateCommand::PaneGroup(PaneGroupCommand::ResizeLeft)),
                ControlDirection::Right => Ok(AppStateCommand::PaneGroup(PaneGroupCommand::ResizeRight)),
                ControlDirection::Up => Ok(AppStateCommand::PaneGroup(PaneGroupCommand::ResizeUp)),
                ControlDirection::Down => Ok(AppStateCommand::PaneGroup(PaneGroupCommand::ResizeDown)),
                ControlDirection::Previous | ControlDirection::Next => Err(ControlError::new(
                    ErrorCode::InvalidParams,
                    "pane.resize only accepts left, right, up, or down".to_owned(),
                )),
            },
            _ => Err(invalid_params(action)),
        },
        ActionKind::PaneFocus | ActionKind::SessionActivate => match &target.pane {
            None => Err(ControlError::new(
                ErrorCode::InvalidSelector,
                "pane focus requires a pane target".to_owned(),
            )),
            Some(PaneTarget::Active) => Ok(AppStateCommand::FocusPane { index: None }),
            Some(PaneTarget::Index { index }) => Ok(AppStateCommand::FocusPane { index: Some(*index as usize) }),
            Some(PaneTarget::Id { .. }) => Err(ControlError::new(
                ErrorCode::StaleTarget,
                "pane id selectors are not resolvable by this shard".to_owned(),
            )),
        },
        ActionKind::PaneMaximize => Ok(AppStateCommand::SetPaneMaximized(true)),
        ActionKind::PaneUnmaximize => Ok(AppStateCommand::SetPaneMaximized(false)),
        ActionKind::PaneClose => Ok(AppStateCommand::PaneGroup(PaneGroupCommand::RemoveActive)),
        ActionKind::PaneRename => match params {
            ActionParams::Rename { title } => Ok(AppStateCommand::RenamePane(title)),
            _ => Err(invalid_params(action)),
        },
        ActionKind::PaneResetName => Ok(AppStateCommand::ResetPaneName),
        _ => Err(invalid_params(action)),
    }
}

/// The command of an app-state action on sessions and terminal input.
fn session_input_command(action: ActionKind, params: ActionParams, target: &TargetSelector) -> (result: Result<AppStateCommand, ControlError>)
    requires
        matches!(action, ActionKind::SessionPrevious | ActionKind::SessionNext
        | ActionKind::SessionReopenClosed | ActionKind::InputInsert | ActionKind::InputReplace
        | ActionKind::InputClear | ActionKind::InputModeSet),
    ensures
        result is Ok <==> app_state_accepts(action, params, *target),
        match result {
            Ok(c) => app_state_command_ok(action, params, *target, c),
            Err(e) => e.code == app_state_refusal(action, *target)
                && e.message@ == app_state_refusal_message(action, params, *target),
        },
{
    match action {
        ActionKind::SessionPrevious => Ok(AppStateCommand::Workspace(WorkspaceCommand::CyclePrevSession)),
        ActionKind::SessionNext => Ok(AppStateCommand::Workspace(WorkspaceCommand::CycleNextSession)),
        ActionKind::SessionReopenClosed => Ok(AppStateCommand::Workspace(WorkspaceCommand::ReopenClosedSession)),
        ActionKind::InputInsert | ActionKind::InputReplace => match params {
            ActionParams::Text { text } => {
                validate_staged_input_text(action, text.as_str())?;
                Ok(AppStateCommand::Workspace(WorkspaceCommand::InsertInInput {
                    content: text,
                    replace_buffer: action == ActionKind::InputReplace,
                }))
            },
            _ => Err(invalid_params(action)),
        },
        ActionKind::InputClear => Ok(AppStateCommand::Workspace(WorkspaceCommand::InsertInInput {
            content: String::new(),
            replace_buffer: true,
        })),
        ActionKind::InputModeSet => match params {
            ActionParams::InputMode { mode } => Ok(AppStateCommand::SetInputMode(mode)),
            _ => Err(invalid_params(action)),
        },
        _ => Err(invalid_params(action)),
    }
}

/// The command of an app-state action on surfaces, files, projects and Warp Drive objects.
fn surface_file_command(action: ActionKind, params: ActionParams, target: &TargetSelector) -> (result: Result<AppStateCommand, ControlError>)
    requires
        matches!(action, ActionKind::SurfaceSettingsOpen | ActionKind::SurfaceCommandPaletteOpen
        | ActionKind::SurfaceCommandSearchOpen | ActionKind::SurfaceWarpDriveOpen
        | ActionKind::SurfaceWarpDriveToggle | ActionKind::SurfaceResourceCenterToggle
        | ActionKind::SurfaceAiAssistantToggle | ActionKind::SurfaceCodeReviewToggle
        | ActionKind::SurfaceRightPanelToggle | ActionKind::SurfaceLeftPanelToggle
        | ActionKind::SurfaceVerticalTabsToggle | ActionKind::FileOpen | ActionKind::ProjectOpen
        | ActionKind::DriveOpen | ActionKind::DriveNotebookOpen
        | ActionKind::DriveEnvVarCollectionOpen | ActionKind::DriveObjectShareOpen),
    ensures
        result is Ok <==> app_state_accepts(action, params, *target),
        match result {
            Ok(c) => app_state_command_ok(action, params, *target, c),
            Err(e) => e.code == app_state_refusal(action, *target)
                && e.message@ == app_state_refusal_message(action, params, *target),
        },
{
    match action {
        ActionKind::SurfaceSettingsOpen => match params {
            ActionParams::PageQuery { query: Some(q) } => Ok(AppStateCommand::Workspace(WorkspaceCommand::ShowSettingsPageWithSearch(q))),
            ActionParams::PageQuery { query: None } | ActionParams::Empty => Ok(AppStateCommand::Workspace(WorkspaceCommand::ShowSettings)),
            _ => Err(invalid_params(action)),
        },
        ActionKind::SurfaceCommandPaletteOpen => match params {
            ActionParams::Query { query } => Ok(AppStateCommand::Workspace(WorkspaceCommand::OpenCommandPalette { query })),
            ActionParams::Empty => Ok(AppStateCommand::Workspace(WorkspaceCommand::OpenCommandPalette { query: None })),
            _ => Err(invalid_params(action)),
        },
        ActionKind::SurfaceCommandSearchOpen => match params {
            ActionParams::Query { query } => Ok(AppStateCommand::Workspace(WorkspaceCommand::ShowCommandSearch { query })),
            ActionParams::Empty => Ok(AppStateCommand::Workspace(WorkspaceCommand::ShowCommandSearch { query: None })),
            _ => Err(invalid_params(action)),
        },
        ActionKind::SurfaceWarpDriveOpen => Ok(AppStateCommand::Workspace(WorkspaceCommand::OpenWarpDrive)),
        ActionKind::SurfaceWarpDriveToggle => Ok(AppStateCommand::Workspace(WorkspaceCommand::ToggleWarpDrive)),
        ActionKind::SurfaceResourceCenterToggle => Ok(AppStateCommand::Workspace(WorkspaceCommand::ToggleResourceCenter)),
        ActionKind::SurfaceAiAssistantToggle => Ok(AppStateCommand::Workspace(WorkspaceCommand::ToggleAiAssistant)),
        ActionKind::SurfaceCodeReviewToggle | ActionKind::SurfaceRightPanelToggle => Ok(AppStateCommand::Workspace(WorkspaceCommand::ToggleRightPanel)),
        ActionKind::SurfaceLeftPanelToggle => Ok(AppStateCommand::Workspace(WorkspaceCommand::ToggleLeftPanel)),
        ActionKind::SurfaceVerticalTabsToggle => Ok(AppStateCommand::Workspace(WorkspaceCommand::ToggleVerticalTabsPanel)),
        ActionKind::FileOpen => match params {
            ActionParams::FileOpen(p) => {
                let (line, column) = match p.line {
                    Some(l) => {
                        if l > usize::MAX as u64 {
                            return Err(ControlError::new(
                                ErrorCode::InvalidParams,
                                "file.open line is out of range".to_owned(),
                            ));
                        }
                        let column = match p.column {
                            Some(c) => {
                                if c > usize::MAX as u64 {
                                    return Err(ControlError::new(
                                        ErrorCode::InvalidParams,
                                        "file.open column is out of range".to_owned(),
                                    ));
                                }
                                Some(c as usize)
                            },
                            None => None,
                        };
                        (Some(l as usize), column)
                    },
                    None => (None, None),
                };
                Ok(AppStateCommand::Workspace(WorkspaceCommand::OpenFileInNewTab { path: p.path, line, column }))
            },
            _ => Err(invalid_params(action)),
        },
        ActionKind::ProjectOpen => match params {
            ActionParams::Path { path } => Ok(AppStateCommand::Workspace(WorkspaceCommand::OpenRepository { path })),
            _ => Err(invalid_params(action)),
        },
        ActionKind::DriveOpen | ActionKind::DriveNotebookOpen | ActionKind::DriveEnvVarCollectionOpen
        | ActionKind::DriveObjectShareOpen => match params {
            ActionParams::DriveObjectId { id } => Ok(AppStateCommand::OpenDriveObject { id, how: action }),
            _ => Err(invalid_params(action)),
        },

        _ => Err(invalid_params(action)),
    }
}

/// The tab `tab.activate` in target mode activates: an index below the
/// tab count, else the active tab (also for id and title selectors, which
/// this handler does not resolve).
pub fn tab_activation_index(tab: &Option<TabTarget>, tab_count: usize, active_tab_index: usize) -> (index: usize)
    ensures
        index == (match *tab {
            Some(TabTarget::Index { index: i }) => if (i as int) < tab_count { i as usize } else { active_tab_index },
            _ => active_tab_index,
        }),
{
    match tab {
        Some(TabTarget::Index { index }) => {
            if (*index as usize) < tab_count {
                *index as usize
            } else {
                active_tab_index
            }
        },
        _ => active_tab_index,
    }
}

/// Decides the command for an app-state action with its decoded parameters.
pub fn app_state_command(action: ActionKind, params: ActionParams, target: &TargetSelector) -> (result: Result<AppStateCommand, ControlError>)
    ensures
        result is Ok <==> app_state_accepts(action, params, *target),
        match result {
            Ok(c) => app_state_command_ok(action, params, *target, c),
            Err(e) => e.code == app_state_refusal(action, *target)
                && e.message@ == app_state_refusal_message(action, params, *target),
        },
{
    if matches!(
        action,
        ActionKind::AppFocus | ActionKind::WindowFocus | ActionKind::WindowCreate
        | ActionKind::WindowClose | ActionKind::TabActivate | ActionKind::TabMove
        | ActionKind::TabClose | ActionKind::TabRename | ActionKind::TabResetName
        | ActionKind::TabColorClear
    ) {
        return window_tab_command(action, params, target);
    }
    if matches!(
        action,
        ActionKind::PaneSplit | ActionKind::PaneNavigate | ActionKind::PaneResize
        | ActionKind::PaneFocus | ActionKind::SessionActivate | ActionKind::PaneMaximize
        | ActionKind::PaneUnmaximize | ActionKind::PaneClose | ActionKind::PaneRename
        | ActionKind::PaneResetName
    ) {
        return pane_command(action, params, target);
    }
    if matches!(
        action,
        ActionKind::SessionPrevious | ActionKind::SessionNext | ActionKind::SessionReopenClosed
        | ActionKind::InputInsert | ActionKind::InputReplace | ActionKind::InputClear
        | ActionKind::InputModeSet
    ) {
        return session_input_command(action, params, target);
    }
    if matches!(
        action,
        ActionKind::SurfaceSettingsOpen | ActionKind::SurfaceCommandPaletteOpen
        | ActionKind::SurfaceCommandSearchOpen | ActionKind::SurfaceWarpDriveOpen
        | ActionKind::SurfaceWarpDriveToggle | ActionKind::SurfaceResourceCenterToggle
        | ActionKind::SurfaceAiAssistantToggle | ActionKind::SurfaceCodeReviewToggle
        | ActionKind::SurfaceRightPanelToggle | ActionKind::SurfaceLeftPanelToggle
        | ActionKind::SurfaceVerticalTabsToggle | ActionKind::FileOpen | ActionKind::ProjectOpen
        | ActionKind::DriveOpen | ActionKind::DriveNotebookOpen
        | ActionKind::DriveEnvVarCollectionOpen | ActionKind::DriveObjectShareOpen
    ) {
        return surface_file_command(action, params, target);
    }
    Err(ControlError::new(
        ErrorCode::UnsupportedAction,
        concat(action.as_str(), " is not an app-state handler action"),
    ))
}

} // verus!
