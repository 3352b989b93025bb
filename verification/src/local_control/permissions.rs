//! Permission checks for local control: the protocol version, the feature
//! flag, and the Settings > Scripting mode.
use vstd::prelude::*;
use crate::local_control::protocol::{
    action_name, ActionKind, ControlError, ErrorCode, InvocationContext, PROTOCOL_VERSION,
};
use crate::text::{concat, decimal, decimal_string};

verus! {

/// The Settings > Scripting local-control mode.
#[derive(Clone, Copy, Debug, PartialEq, Eq, Structural)]
pub enum LocalControlMode {
    /// Local control is off.
    Disabled,
    /// Only terminal sessions inside Warp may control it.
    EnabledWithinWarp,
    /// Processes outside Warp may control it too.
    EnabledEverywhere,
}

/// The local-control settings.
#[derive(Clone, Copy, Debug)]
pub struct LocalControlSettings {
    pub local_control_mode: LocalControlMode,
}

impl LocalControlSettings {
    /// Whether local control is on in any form.
    pub fn is_enabled(&self) -> (enabled: bool)
        ensures
            enabled == (self.local_control_mode != LocalControlMode::Disabled),
    {
        match self.local_control_mode {
            LocalControlMode::Disabled => false,
            _ => true,
        }
    }

    /// Whether processes outside Warp may control it.
    pub fn outside_warp_control_enabled(&self) -> (enabled: bool)
        ensures
            enabled == (self.local_control_mode == LocalControlMode::EnabledEverywhere),
    {
        match self.local_control_mode {
            LocalControlMode::EnabledEverywhere => true,
            _ => false,
        }
    }
}

/// Settings with the given mode.
pub fn settings_with_mode(mode: LocalControlMode) -> (settings: LocalControlSettings)
    ensures
        settings.local_control_mode == mode,
{
    LocalControlSettings { local_control_mode: mode }
}

/// Whether discovery may advertise the control endpoint to processes
/// outside Warp: only in the "everywhere" mode.
pub fn outside_warp_control_enabled_for_settings(settings: &LocalControlSettings) -> (enabled: bool)
    ensures
        enabled == (settings.local_control_mode == LocalControlMode::EnabledEverywhere),
{
    settings.outside_warp_control_enabled()
}

/// The error `ensure_settings_allow_action` gives, if any: outside Warp
/// needs the "everywhere" mode; inside Warp, a disabled mode refuses, and
/// otherwise inside-Warp grants are not available yet.
pub open spec fn settings_refusal(mode: LocalControlMode, context: InvocationContext) -> Option<ErrorCode> {
    match context {
        InvocationContext::OutsideWarp => if mode == LocalControlMode::EnabledEverywhere {
            None
        } else {
            Some(ErrorCode::LocalControlDisabled)
        },
        InvocationContext::InsideWarp => if mode == LocalControlMode::Disabled {
            Some(ErrorCode::LocalControlDisabled)
        } else {
            Some(ErrorCode::ExecutionContextNotAllowed)
        },
    }
}

/// The message of a refusal by the settings.
pub open spec fn settings_refusal_message(action: ActionKind, context: InvocationContext, code: ErrorCode) -> Seq<char> {
    action_name(action) + (if code == ErrorCode::LocalControlDisabled {
        if context == InvocationContext::OutsideWarp {
            " is disabled for local control outside Warp"@
        } else {
            " is disabled for local control"@
        }
    } else {
        " cannot run from inside Warp: inside-Warp grants are not implemented"@
    })
}

/// Checks that the settings let `action` run from `context`.
pub fn ensure_settings_allow_action(
    settings: &LocalControlSettings,
    context: InvocationContext,
    action: ActionKind,
) -> (result: Result<(), ControlError>)
    ensures
        match result {
            Ok(()) => settings_refusal(settings.local_control_mode, context) is None,
            Err(e) => settings_refusal(settings.local_control_mode, context) == Some(e.code)
                && e.message@ == settings_refusal_message(action, context, e.code),
        },
{
    match context {
        InvocationContext::OutsideWarp => {
            if settings.outside_warp_control_enabled() {
                Ok(())
            } else {
                Err(ControlError::new(
                    ErrorCode::LocalControlDisabled,
                    concat(action.as_str(), " is disabled for local control outside Warp"),
                ))
            }
        },
        InvocationContext::InsideWarp => {
            if !settings.is_enabled() {
                Err(ControlError::new(
                    ErrorCode::LocalControlDisabled,
                    concat(action.as_str(), " is disabled for local control"),
                ))
            } else {
                Err(ControlError::new(
                    ErrorCode::ExecutionContextNotAllowed,
                    concat(action.as_str(), " cannot run from inside Warp: inside-Warp grants are not implemented"),
                ))
            }
        },
    }
}

/// Checks the request's protocol version against [`PROTOCOL_VERSION`].
pub fn ensure_protocol_version(protocol_version: u32) -> (result: Result<(), ControlError>)
    ensures
        result is Ok <==> protocol_version == PROTOCOL_VERSION,
        match result {
            Ok(()) => true,
            Err(e) => e.code == ErrorCode::ProtocolVersionUnsupported
                && e.message@ == "unsupported protocol version "@ + decimal(protocol_version as nat),
        },
{
    if protocol_version == PROTOCOL_VERSION {
        return Ok(());
    }
    let digits = decimal_string(protocol_version as u64);
    Err(ControlError::new(
        ErrorCode::ProtocolVersionUnsupported,
        concat("unsupported protocol version ", digits.as_str()),
    ))
}

/// Checks the `WarpControlCli` feature flag, whose value the caller reads.
pub fn ensure_feature_enabled(warp_control_cli_enabled: bool) -> (result: Result<(), ControlError>)
    ensures
        result is Ok <==> warp_control_cli_enabled,
        match result {
            Ok(()) => true,
            Err(e) => e.code == ErrorCode::LocalControlDisabled
                && e.message@ == "Warp control CLI is disabled by feature flag"@,
        },
{
    if warp_control_cli_enabled {
        return Ok(());
    }
    Err(ControlError::new(
        ErrorCode::LocalControlDisabled,
        "Warp control CLI is disabled by feature flag".to_owned(),
    ))
}

} // verus!
