//! Target validation for actions that read a terminal (input, history,
//! blocks), session selector resolution, and the history listing.
use vstd::prelude::*;
use crate::local_control::protocol::{action_name, ActionKind, ControlError, ErrorCode};
use crate::local_control::selectors::{PaneTarget, SessionTarget, TabTarget, TargetSelector, WindowTarget};
use crate::text::{chars_of, concat, decimal, decimal_string};

verus! {

/// The error `validate_active_terminal_target` gives, if any: window, tab
/// and pane selectors must be absent or name the active one; an id selector
/// is stale, any other form is invalid (checked window, tab, pane in turn).
pub open spec fn active_terminal_target_refusal(target: TargetSelector) -> Option<ErrorCode> {
    if target.window matches Some(WindowTarget::Id { .. }) {
        Some(ErrorCode::StaleTarget)
    } else if !(target.window is None || target.window matches Some(WindowTarget::Active)) {
        Some(ErrorCode::InvalidSelector)
    } else if target.tab matches Some(TabTarget::Id { .. }) {
        Some(ErrorCode::StaleTarget)
    } else if !(target.tab is None || target.tab matches Some(TabTarget::Active)) {
        Some(ErrorCode::InvalidSelector)
    } else if target.pane matches Some(PaneTarget::Id { .. }) {
        Some(ErrorCode::StaleTarget)
    } else if !(target.pane is None || target.pane matches Some(PaneTarget::Active)) {
        Some(ErrorCode::InvalidSelector)
    } else {
        None
    }
}

/// The message of the error `validate_active_terminal_target` gives, after
/// the action's name.
pub open spec fn active_terminal_target_message(target: TargetSelector) -> Seq<char> {
    if target.window matches Some(WindowTarget::Id { .. }) {
        " cannot resolve the requested window id"@
    } else if !(target.window is None || target.window matches Some(WindowTarget::Active)) {
        " only supports the active window selector"@
    } else if target.tab matches Some(TabTarget::Id { .. }) {
        " cannot resolve the requested tab id"@
    } else if !(target.tab is None || target.tab matches Some(TabTarget::Active)) {
        " only supports the active tab selector"@
    } else if target.pane matches Some(PaneTarget::Id { .. }) {
        " cannot resolve the requested pane id"@
    } else {
        " only supports the active pane selector"@
    }
}

/// Checks that a terminal read targets the active window, tab and pane.
pub fn validate_active_terminal_target(action: ActionKind, target: &TargetSelector) -> (result: Result<(), ControlError>)
    ensures
        match result {
            Ok(()) => active_terminal_target_refusal(*target) is None,
            Err(e) => active_terminal_target_refusal(*target) == Some(e.code)
                && e.message@ == action_name(action) + active_terminal_target_message(*target),
        },
{
    match &target.window {
        Some(WindowTarget::Id { .. }) => {
            return Err(ControlError::new(ErrorCode::StaleTarget, concat(action.as_str(), " cannot resolve the requested window id")));
        },
        None | Some(WindowTarget::Active) => {},
        _ => {
            return Err(ControlError::new(ErrorCode::InvalidSelector, concat(action.as_str(), " only supports the active window selector")));
        },
    }
    match &target.tab {
        Some(TabTarget::Id { .. }) => {
            return Err(ControlError::new(ErrorCode::StaleTarget, concat(action.as_str(), " cannot resolve the requested tab id")));
        },
        None | Some(TabTarget::Active) => {},
        _ => {
            return Err(ControlError::new(ErrorCode::InvalidSelector, concat(action.as_str(), " only supports the active tab selector")));
        },
    }
    match &target.pane {
        Some(PaneTarget::Id { .. }) => {
            return Err(ControlError::new(ErrorCode::StaleTarget, concat(action.as_str(), " cannot resolve the requested pane id")));
        },
        None | Some(PaneTarget::Active) => {},
        _ => {
            return Err(ControlError::new(ErrorCode::InvalidSelector, concat(action.as_str(), " only supports the active pane selector")));
        },
    }
    Ok(())
}

/// The value of a string of ASCII digits.
pub open spec fn digits_value(w: Seq<char>) -> nat
    decreases w.len(),
{
    if w.len() == 0 {
        0
    } else {
        digits_value(w.drop_last()) * 10 + ((w.last() as u32) - ('0' as u32)) as nat
    }
}

/// The digits of an unsigned number: the text without its optional leading `+`.
pub open spec fn unsigned_digits(s: Seq<char>) -> Seq<char> {
    if s.len() > 0 && s[0] == '+' {
        s.drop_first()
    } else {
        s
    }
}

/// A session id as `str::parse::<u64>` reads it: an optional `+`, then at
/// least one ASCII digit, with a value that fits in `u64`.
pub open spec fn parse_session_id(s: Seq<char>) -> Option<u64> {
    let digits = unsigned_digits(s);
    if digits.len() > 0 && (forall|k: int| 0 <= k < digits.len() ==> '0' <= #[trigger] digits[k] <= '9')
        && digits_value(digits) <= u64::MAX {
        Some(digits_value(digits) as u64)
    } else {
        None
    }
}

proof fn lemma_digits_value_monotone(w: Seq<char>, k: int)
    requires
        0 <= k <= w.len(),
        forall|j: int| 0 <= j < w.len() ==> '0' <= #[trigger] w[j] <= '9',
    ensures
        digits_value(w.take(k)) <= digits_value(w),
    decreases w.len(),
{
    if k < w.len() {
        assert(w.drop_last().take(k) =~= w.take(k));
        lemma_digits_value_monotone(w.drop_last(), k);
    } else {
        assert(w.take(k) =~= w);
    }
}

/// Reads a session id.
fn parse_u64(s: &str) -> (value: Option<u64>)
    ensures
        value == parse_session_id(s@),
{
    let chars = chars_of(s);
    let n = chars.len();
    let start: usize = if n > 0 && chars[0] == '+' { 1 } else { 0 };
    let ghost digits = unsigned_digits(s@);
    assert(digits =~= chars@.skip(start as int));
    if start == n {
        return None;
    }
    let mut value: u64 = 0;
    let mut i: usize = start;
    while i < n
        invariant
            n == chars@.len(),
            chars@ == s@,
            start < n,
            start <= i <= n,
            digits == unsigned_digits(s@),
            digits =~= chars@.skip(start as int),
            value as nat == digits_value(chars@.subrange(start as int, i as int)),
            forall|k: int| start <= k < i ==> '0' <= #[trigger] chars@[k] <= '9',
        decreases n - i,
    {
        let c = chars[i];
        assert(chars@.subrange(start as int, i + 1).drop_last() =~= chars@.subrange(start as int, i as int));
        if !('0' <= c && c <= '9') {
            assert(digits[i - start] == c);
            assert(parse_session_id(s@) is None);
            return None;
        }
        let d = (c as u32 - '0' as u32) as u64;
        let next = match value.checked_mul(10) {
            Some(m) => m.checked_add(d),
            None => None,
        };
        match next {
            Some(v) => {
                value = v;
            },
            None => {
                proof {
                    let all = forall|k: int| 0 <= k < digits.len() ==> '0' <= #[trigger] digits[k] <= '9';
                    if all {
                        lemma_digits_value_monotone(digits, (i + 1 - start) as int);
                        assert(chars@.subrange(start as int, i + 1) =~= digits.take(i + 1 - start));
                    }
                }
                return None;
            },
        }
        i = i + 1;
    }
    assert(chars@.subrange(start as int, n as int) =~= digits);
    Some(value)
}

/// The session a read targets: the active session for no selector or the
/// active selector (`MissingTarget` without one), or the session id written
/// in the selector (`InvalidSelector` when it is not a number).
pub fn resolve_session_selector(
    target: &Option<SessionTarget>,
    active_session_id: Option<u64>,
    action: ActionKind,
) -> (result: Result<u64, ControlError>)
    ensures
        match *target {
            None | Some(SessionTarget::Active) => match active_session_id {
                Some(s) => result matches Ok(r) && r == s,
                None => result matches Err(e) && e.code == ErrorCode::MissingTarget
                    && e.message@ == action_name(action) + " requires an active terminal session"@,
            },
            Some(SessionTarget::Id { id }) => match parse_session_id(id.0@) {
                Some(v) => result matches Ok(r) && r == v,
                None => result matches Err(e) && e.code == ErrorCode::InvalidSelector
                    && e.message@ == action_name(action) + " received an invalid session id"@,
            },
        },
{
    match target {
        None | Some(SessionTarget::Active) => match active_session_id {
            Some(s) => Ok(s),
            None => Err(ControlError::new(
                ErrorCode::MissingTarget,
                concat(action.as_str(), " requires an active terminal session"),
            )),
        },
        Some(SessionTarget::Id { id }) => match parse_u64(id.0.as_str()) {
            Some(v) => Ok(v),
            None => Err(ControlError::new(
                ErrorCode::InvalidSelector,
                concat(action.as_str(), " received an invalid session id"),
            )),
        },
    }
}

/// One command of a session's history.
#[derive(Debug, Clone)]
pub struct HistoryEntry {
    pub command: String,
    pub cwd: Option<String>,
}

/// An entry of a `history.list` result.
#[derive(Debug, Clone)]
pub struct HistoryEntrySummary {
    pub entry_id: String,
    pub command: String,
    pub cwd: Option<String>,
}

/// The index of the first history entry listed: all of them without a
/// limit, else the last `limit` (everything when the limit does not fit in
/// `usize`).
pub open spec fn history_start(len: nat, limit: Option<u64>) -> nat {
    match limit {
        Some(l) => if l <= usize::MAX && l < len { (len - l) as nat } else { 0 },
        None => 0,
    }
}

/// The id of history entry `index` of session `session_id`.
pub open spec fn history_entry_id(session_id: u64, index: nat) -> Seq<char> {
    "history:"@ + decimal(session_id as nat) + ":"@ + decimal(index)
}

/// Lists a session's history, keeping the last `limit` entries, each with
/// its id, command and working directory, in order.
pub fn list_history_entries(session_id: u64, commands: &Vec<HistoryEntry>, limit: Option<u64>) -> (entries: Vec<HistoryEntrySummary>)
    ensures
        entries@.len() == commands@.len() - history_start(commands@.len(), limit),
        forall|k: int| 0 <= k < entries@.len() ==> {
            let i = k + history_start(commands@.len(), limit);
            &&& (#[trigger] entries@[k]).entry_id@ == history_entry_id(session_id, i as nat)
            &&& entries@[k].command@ == commands@[i].command@
            &&& entries@[k].cwd == commands@[i].cwd
        },
{
    let n = commands.len();
    let start: usize = match limit {
        Some(l) => {
            if l <= usize::MAX as u64 && (l as usize) < n {
                n - l as usize
            } else {
                0
            }
        },
        None => 0,
    };
    let session = decimal_string(session_id);
    let prefix = concat("history:", session.as_str());
    let prefix = concat(prefix.as_str(), ":");
    let mut entries: Vec<HistoryEntrySummary> = Vec::new();
    let mut i: usize = start;
    while i < n
        invariant
            n == commands@.len(),
            start == history_start(n as nat, limit),
            start <= i <= n,
            prefix@ == "history:"@ + decimal(session_id as nat) + ":"@,
            entries@.len() == i - start,
            forall|k: int| 0 <= k < entries@.len() ==> {
                let j = k + start;
                &&& (#[trigger] entries@[k]).entry_id@ == history_entry_id(session_id, j as nat)
                &&& entries@[k].command@ == commands@[j].command@
                &&& entries@[k].cwd == commands@[j].cwd
            },
        decreases n - i,
    {
        let index_text = decimal_string(i as u64);
        let entry_id = concat(prefix.as_str(), index_text.as_str());
        let cwd = match &commands[i].cwd {
            Some(c) => Some(c.clone()),
            None => None,
        };
        entries.push(HistoryEntrySummary { entry_id, command: commands[i].command.clone(), cwd });
        i = i + 1;
    }
    entries
}

} // verus!
