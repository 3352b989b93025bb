//! Local control: validation of the requests that clients send to a running
//! Warp, the permissions that gate them, the credentials that authorize
//! them, and the resolution of their targets.
mod app_state;
mod blocks;
mod bridge;
mod confirmation;
mod credentials;
mod dispatch;
mod drive;
mod file_paths;
mod listing;
mod open_files;
mod permissions;
mod protocol;
mod resolver;
mod selectors;
mod settings_keys;
mod tabs;
mod terminal_targets;

pub use app_state::{
    app_state_command, tab_activation_index, validate_staged_input_text, ActionParams, AppStateCommand, ControlDirection, FileOpenParams, InputMode,
    PaneDirection, PaneGroupCommand, TabActivationMode, WorkspaceCommand,
};
pub use bridge::{
    ack_response, admit_request, ping_response, validate_action_params, validate_action_target,
    validate_loopback_headers, validate_request_authority, version_response, Action,
    RequestEnvelope, RequestHeaders,
};
pub use credentials::{
    CredentialGrant, CredentialStore, CREDENTIAL_TTL_MILLIS, MAX_ACTIVE_CREDENTIALS,
};
pub use file_paths::{
    file_mutation_candidate, file_mutation_probe, file_mutation_roots, finish_file_mutation_path,
    file_delete_check, file_delete_params_check, file_mutation_failure, file_write_check,
    join_path, join_path_exec, path_has_safe_components, path_starts_with_exec, PathProbe,
};
pub use permissions::{
    ensure_feature_enabled, ensure_protocol_version, ensure_settings_allow_action,
    outside_warp_control_enabled_for_settings, settings_with_mode, LocalControlMode,
    LocalControlSettings,
};
pub use protocol::{
    action_kind_for_name, capabilities, ActionKind, ControlError, ErrorCode, InvocationContext, PROTOCOL_VERSION,
};
pub use selectors::{
    DriveTarget, FileTarget, PaneSelector, PaneTarget, SessionSelector, SessionTarget,
    TabSelector, TabTarget, TargetSelector, WindowSelector, WindowTarget,
};
pub use resolver::{
    active_or_single_window_id, reject_target_families, require_active_window_id,
    require_active_window_id_for_action, resolve_index_from_ids, resolve_title_from_matches,
    target_window_id_for_target, validate_empty_params,
    validate_file_mutation_target, validate_session_cycle_target, validate_tab_create_target,
    WindowId,
};
pub use tabs::{
    plan_tab_close, tab_close_result, tab_close_step, tab_create_plan, TabCloseStep, tab_create_response, tab_index_from_target, TabCloseMode,
    TabCreateParams, TabCreatePlan, TabInfo, TabType,
};
pub(crate) use file_paths::{is_name, is_name_exec, path_parts, path_parts_of};
pub use confirmation::{
    LocalControlConfirmationAction, LocalControlConfirmationDialog, LocalControlConfirmationPrompt,
};
pub use settings_keys::{is_allowlisted_setting_key, rejected_setting_key, setting_keys_in_namespace};
pub use terminal_targets::{
    list_history_entries, resolve_session_selector, validate_active_terminal_target, HistoryEntry,
    HistoryEntrySummary,
};
pub use drive::{
    control_drive_object_type, drive_list_objects, drive_object_summary, drive_object_type_rank,
    drive_type_mismatch_error, drive_unsupported_type_error, validate_drive_target,
    drive_object_content, drive_object_get_result, resolve_drive_object, CloudObjectEntry,
    CloudObjectKind, DriveObjectBody, DriveObjectSummary, DriveObjectType,
};
pub use blocks::{block_get_result, block_list_result, block_summary, BlockSummary, TerminalBlock};
pub use listing::{
    pane_inspect, pane_list_entries, pane_rows, select_pane_entries, select_tab_entries,
    select_window_ids, session_inspect, session_list_entries, session_rows, single_entry,
    tab_inspect, tab_list_entries, tab_rows, window_inspect, window_list_ids, window_rows,
    AppSnapshot, PanePosition, PaneRow, PaneSnapshot, SessionRow, TabPosition, TabRow,
    TabSnapshot, WindowRow, WindowSnapshot, WorkspaceSnapshot,
};
pub use open_files::{open_file_summaries, validate_instance_metadata_read_target, FileSummary};
pub use dispatch::{request_handler, response_envelope, route_request, RequestHandler, ResponseEnvelope};
