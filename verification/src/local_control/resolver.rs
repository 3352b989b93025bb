//! Resolution of request targets to windows and tabs, and validation of
//! the selector families and parameters each action accepts.
use vstd::prelude::*;
use crate::json::JsonValue;
use crate::local_control::protocol::{action_name, ActionKind, ControlError, ErrorCode};
use crate::local_control::selectors::{
    FileTarget, PaneTarget, SessionTarget, TabTarget, TargetSelector, WindowTarget,
};
use crate::text::{
    chars_leq_rel, concat, decimal, decimal_string, lemma_chars_le_total_ordering, sort_strings,
    string_views,
};

verus! {

/// Identifier of an application window.
#[derive(Clone, Copy, Debug, PartialEq, Eq, Structural, Hash)]
pub struct WindowId(pub usize);

/// The active window, or `MissingTarget` when there is none.
pub fn require_active_window_id_for_action(
    active_window: Option<WindowId>,
    action: ActionKind,
) -> (result: Result<WindowId, ControlError>)
    ensures
        match active_window {
            Some(w) => result matches Ok(r) && r == w,
            None => result matches Err(e) && e.code == ErrorCode::MissingTarget
                && e.message@ == action_name(action) + " requires an active Warp window"@,
        },
{
    match active_window {
        Some(w) => Ok(w),
        None => Err(ControlError::new(
            ErrorCode::MissingTarget,
            concat(action.as_str(), " requires an active Warp window"),
        )),
    }
}

/// The active window for `tab.create`.
pub fn require_active_window_id(active_window: Option<WindowId>) -> (result: Result<WindowId, ControlError>)
    ensures
        match active_window {
            Some(w) => result matches Ok(r) && r == w,
            None => result matches Err(e) && e.code == ErrorCode::MissingTarget
                && e.message@ == action_name(ActionKind::TabCreate) + " requires an active Warp window"@,
        },
{
    require_active_window_id_for_action(active_window, ActionKind::TabCreate)
}

/// The window a title selector names: the only match, `MissingTarget` when
/// none matched, `AmbiguousTarget` when several did.
pub fn resolve_title_from_matches(matching: &[WindowId], action: ActionKind) -> (result: Result<WindowId, ControlError>)
    ensures
        matching@.len() == 1 ==> (result matches Ok(w) && w == matching@[0]),
        matching@.len() == 0 ==> (result matches Err(e) && e.code == ErrorCode::MissingTarget
            && e.message@ == action_name(action) + " cannot resolve the requested window title"@),
        matching@.len() > 1 ==> (result matches Err(e) && e.code == ErrorCode::AmbiguousTarget
            && e.message@ == action_name(action) + " resolved multiple windows by title"@),
{
    if matching.len() == 1 {
        Ok(matching[0])
    } else if matching.len() == 0 {
        Err(ControlError::new(
            ErrorCode::MissingTarget,
            concat(action.as_str(), " cannot resolve the requested window title"),
        ))
    } else {
        Err(ControlError::new(
            ErrorCode::AmbiguousTarget,
            concat(action.as_str(), " resolved multiple windows by title"),
        ))
    }
}

/// The window to use when a request names none: the active window, else
/// the only window; `MissingTarget` without windows, `AmbiguousTarget`
/// with several and none active.
pub fn active_or_single_window_id(
    active_window: Option<WindowId>,
    window_ids: &[WindowId],
    action: ActionKind,
) -> (result: Result<WindowId, ControlError>)
    ensures
        match active_window {
            Some(w) => result matches Ok(r) && r == w,
            None => {
                &&& window_ids@.len() == 1 ==> (result matches Ok(r) && r == window_ids@[0])
                &&& window_ids@.len() == 0 ==> (result matches Err(e) && e.code == ErrorCode::MissingTarget
                    && e.message@ == action_name(action) + " requires an active Warp window"@)
                &&& window_ids@.len() > 1 ==> (result matches Err(e) && e.code == ErrorCode::AmbiguousTarget
                    && e.message@ == action_name(action) + " requires an explicit window selector when no Warp window is active"@)
            },
        },
{
    if let Some(w) = active_window {
        return Ok(w);
    }
    if window_ids.len() == 1 {
        Ok(window_ids[0])
    } else if window_ids.len() == 0 {
        require_active_window_id_for_action(None, action)
    } else {
        Err(ControlError::new(
            ErrorCode::AmbiguousTarget,
            concat(action.as_str(), " requires an explicit window selector when no Warp window is active"),
        ))
    }
}

/// The error `validate_tab_create_target` gives, if any. `tab.create` makes
/// a new tab in a window, so any window selector is accepted; naming an
/// existing tab or pane by id is stale; other tab and pane forms, and
/// session, drive or file selectors, are invalid.
pub open spec fn tab_create_target_refusal(target: TargetSelector) -> Option<ErrorCode> {
    match (target.tab, target.pane) {
        (Some(TabTarget::Id { .. }), _) => Some(ErrorCode::StaleTarget),
        (Some(TabTarget::Index { .. }), _) | (Some(TabTarget::Title { .. }), _) => Some(ErrorCode::InvalidSelector),
        (_, Some(PaneTarget::Id { .. })) => Some(ErrorCode::StaleTarget),
        (_, Some(PaneTarget::Index { .. })) => Some(ErrorCode::InvalidSelector),
        _ => if target.session is Some || target.drive is Some || target.file is Some {
            Some(ErrorCode::InvalidSelector)
        } else {
            None
        },
    }
}

/// The message of the error `validate_tab_create_target` gives.
pub open spec fn tab_create_target_message(target: TargetSelector) -> Seq<char> {
    match (target.tab, target.pane) {
        (Some(TabTarget::Id { .. }), _) => "tab.create cannot target an existing tab"@,
        (Some(TabTarget::Index { .. }), _) | (Some(TabTarget::Title { .. }), _) => "tab.create accepts only the active tab selector"@,
        (_, Some(PaneTarget::Id { .. })) => "tab.create cannot target an existing pane"@,
        (_, Some(PaneTarget::Index { .. })) => "tab.create accepts only the active pane selector"@,
        _ => "tab.create accepts only a window selector"@,
    }
}

/// Checks the target of a `tab.create` request.
pub fn validate_tab_create_target(target: &TargetSelector) -> (result: Result<(), ControlError>)
    ensures
        match result {
            Ok(()) => tab_create_target_refusal(*target) is None,
            Err(e) => tab_create_target_refusal(*target) == Some(e.code)
                && e.message@ == tab_create_target_message(*target),
        },
{
    match &target.tab {
        Some(TabTarget::Id { .. }) => {
            return Err(ControlError::new(
                ErrorCode::StaleTarget,
                "tab.create cannot target an existing tab".to_owned(),
            ));
        },
        Some(TabTarget::Index { .. }) | Some(TabTarget::Title { .. }) => {
            return Err(ControlError::new(
                ErrorCode::InvalidSelector,
                "tab.create accepts only the active tab selector".to_owned(),
            ));
        },
        _ => {},
    }
    match &target.pane {
        Some(PaneTarget::Id { .. }) => {
            return Err(ControlError::new(
                ErrorCode::StaleTarget,
                "tab.create cannot target an existing pane".to_owned(),
            ));
        },
        Some(PaneTarget::Index { .. }) => {
            return Err(ControlError::new(
                ErrorCode::InvalidSelector,
                "tab.create accepts only the active pane selector".to_owned(),
            ));
        },
        _ => {},
    }
    if target.session.is_some() || target.drive.is_some() || target.file.is_some() {
        return Err(ControlError::new(
            ErrorCode::InvalidSelector,
            "tab.create accepts only a window selector".to_owned(),
        ));
    }
    Ok(())
}

/// Refuses a request whose selectors include a family the action does not
/// accept (`rejected`), naming the `families`.
pub fn reject_target_families(action: ActionKind, rejected: bool, families: &str) -> (result: Result<(), ControlError>)
    ensures
        result is Ok <==> !rejected,
        match result {
            Ok(()) => true,
            Err(e) => e.code == ErrorCode::InvalidSelector
                && e.message@ == action_name(action) + " does not accept "@ + families@
                && e.details is None,
        },
{
    if rejected {
        let prefix = concat(action.as_str(), " does not accept ");
        return Err(ControlError::new(ErrorCode::InvalidSelector, concat(prefix.as_str(), families)));
    }
    Ok(())
}

/// The error `validate_session_cycle_target` gives, if any: a window id is
/// stale, other window forms than the active one are invalid, and only
/// `session.activate` accepts a concrete session id.
pub open spec fn session_cycle_target_refusal(action: ActionKind, target: TargetSelector) -> Option<ErrorCode> {
    match target.window {
        Some(WindowTarget::Id { .. }) => Some(ErrorCode::StaleTarget),
        Some(WindowTarget::Index { .. }) | Some(WindowTarget::Title { .. }) => Some(ErrorCode::InvalidSelector),
        _ => if action != ActionKind::SessionActivate && target.session matches Some(SessionTarget::Id { .. }) {
            Some(ErrorCode::InvalidSelector)
        } else {
            None
        },
    }
}

/// The message of the error `validate_session_cycle_target` gives, after
/// the action's name.
pub open spec fn session_cycle_target_message(target: TargetSelector) -> Seq<char> {
    match target.window {
        Some(WindowTarget::Id { .. }) => " cannot resolve the requested window id"@,
        Some(WindowTarget::Index { .. }) | Some(WindowTarget::Title { .. }) => " only supports the active window selector"@,
        _ => " does not accept a concrete session selector"@,
    }
}

/// Checks the target of a session activation or cycling request.
pub fn validate_session_cycle_target(action: ActionKind, target: &TargetSelector) -> (result: Result<(), ControlError>)
    ensures
        match result {
            Ok(()) => session_cycle_target_refusal(action, *target) is None,
            Err(e) => session_cycle_target_refusal(action, *target) == Some(e.code)
                && e.message@ == action_name(action) + session_cycle_target_message(*target),
        },
{
    match &target.window {
        Some(WindowTarget::Id { .. }) => {
            return Err(ControlError::new(
                ErrorCode::StaleTarget,
                concat(action.as_str(), " cannot resolve the requested window id"),
            ));
        },
        Some(WindowTarget::Index { .. }) | Some(WindowTarget::Title { .. }) => {
            return Err(ControlError::new(
                ErrorCode::InvalidSelector,
                concat(action.as_str(), " only supports the active window selector"),
            ));
        },
        _ => {},
    }
    if action != ActionKind::SessionActivate {
        if let Some(SessionTarget::Id { .. }) = &target.session {
            return Err(ControlError::new(
                ErrorCode::InvalidSelector,
                concat(action.as_str(), " does not accept a concrete session selector"),
            ));
        }
    }
    Ok(())
}

/// Whether `params` is an empty JSON object.
pub open spec fn params_empty(params: JsonValue) -> bool {
    params matches JsonValue::Object(members) && members@.len() == 0
}

/// Checks that an action that takes no parameters got none: its parameters
/// must be an empty JSON object.
pub fn validate_empty_params(action: ActionKind, params: &JsonValue) -> (result: Result<(), ControlError>)
    ensures
        result is Ok <==> params_empty(*params),
        match result {
            Ok(()) => true,
            Err(e) => e.code == ErrorCode::InvalidParams
                && e.message@ == action_name(action) + " does not accept parameters"@,
        },
{
    if let JsonValue::Object(members) = params {
        if members.len() == 0 {
            return Ok(());
        }
    }
    Err(ControlError::new(
        ErrorCode::InvalidParams,
        concat(action.as_str(), " does not accept parameters"),
    ))
}

/// The error `validate_file_mutation_target` gives, if any: window, tab,
/// pane, session and drive selectors are invalid; a file path selector must
/// name the requested path; file id selectors are unsupported.
pub open spec fn file_mutation_target_refusal(target: TargetSelector, path: Seq<char>) -> Option<ErrorCode> {
    if target.window is Some || target.tab is Some || target.pane is Some || target.session is Some
        || target.drive is Some {
        Some(ErrorCode::InvalidSelector)
    } else {
        match target.file {
            None => None,
            Some(FileTarget::Path { path: p }) => if p@ == path {
                None
            } else {
                Some(ErrorCode::TargetStateConflict)
            },
            Some(FileTarget::Id { .. }) => Some(ErrorCode::UnsupportedAction),
        }
    }
}

/// The message of the error `validate_file_mutation_target` gives, after
/// the action's name.
pub open spec fn file_mutation_target_message(target: TargetSelector) -> Seq<char> {
    if target.window is Some || target.tab is Some || target.pane is Some || target.session is Some
        || target.drive is Some {
        " does not accept window, tab, pane, session, or drive selectors"@
    } else if target.file matches Some(FileTarget::Id { .. }) {
        " does not support file id selectors"@
    } else {
        " file selector does not match the requested path"@
    }
}

/// Checks the target of a file write or delete against the requested path.
pub fn validate_file_mutation_target(action: ActionKind, target: &TargetSelector, path: &str) -> (result: Result<(), ControlError>)
    ensures
        match result {
            Ok(()) => file_mutation_target_refusal(*target, path@) is None,
            Err(e) => file_mutation_target_refusal(*target, path@) == Some(e.code)
                && e.message@ == action_name(action) + file_mutation_target_message(*target),
        },
{
    if target.window.is_some() || target.tab.is_some() || target.pane.is_some() || target.session.is_some()
        || target.drive.is_some() {
        return Err(ControlError::new(
            ErrorCode::InvalidSelector,
            concat(action.as_str(), " does not accept window, tab, pane, session, or drive selectors"),
        ));
    }
    match &target.file {
        None => Ok(()),
        Some(FileTarget::Path { path: target_path }) => {
            if crate::json::str_eq(target_path.as_str(), path) {
                Ok(())
            } else {
                Err(ControlError::new(
                    ErrorCode::TargetStateConflict,
                    concat(action.as_str(), " file selector does not match the requested path"),
                ))
            }
        },
        Some(FileTarget::Id { .. }) => Err(ControlError::new(
            ErrorCode::UnsupportedAction,
            concat(action.as_str(), " does not support file id selectors"),
        )),
    }
}

} // verus!

verus! {

/// The text of a window id, as the client sees it: its number in decimal.
pub open spec fn window_text(w: WindowId) -> Seq<char> {
    decimal(w.0 as nat)
}

/// The window at position `index` when the windows are ordered by their
/// text (as strings, so "10" comes before "9").
pub open spec fn window_at_text_rank(ids: Seq<WindowId>, index: int, w: WindowId) -> bool {
    &&& ids.contains(w)
    &&& 0 <= index < ids.len()
    &&& window_text(w) == ids.map_values(|x: WindowId| window_text(x)).sort_by(chars_leq_rel())[index]
}

/// The window a window-index selector names: the windows are ordered by
/// their text and the one at `index` is taken; `MissingTarget` past the end.
pub fn resolve_index_from_ids(ids: &[WindowId], index: u32, action: ActionKind) -> (result: Result<WindowId, ControlError>)
    ensures
        match result {
            Ok(w) => window_at_text_rank(ids@, index as int, w),
            Err(e) => e.code == ErrorCode::MissingTarget && index >= ids@.len()
                && e.message@ == action_name(action) + " cannot resolve the requested window index"@,
        },
{
    let n = ids.len();
    let mut texts: Vec<String> = Vec::new();
    let mut i: usize = 0;
    while i < n
        invariant
            n == ids@.len(),
            i <= n,
            string_views(texts@) == ids@.take(i as int).map_values(|x: WindowId| window_text(x)),
        decreases n - i,
    {
        let t = decimal_string(ids[i].0 as u64);
        let ghost before = string_views(texts@);
        texts.push(t);
        assert(string_views(texts@) =~= before.push(window_text(ids@[i as int])));
        assert(ids@.take(i + 1).map_values(|x: WindowId| window_text(x)) =~= ids@.take(i as int).map_values(|x: WindowId| window_text(x)).push(window_text(ids@[i as int])));
        i = i + 1;
    }
    assert(ids@.take(n as int) =~= ids@);
    let ghost texts_view = ids@.map_values(|x: WindowId| window_text(x));
    let sorted = sort_strings(texts);
    let k = index as usize;
    if k >= sorted.len() {
        proof {
            lemma_chars_le_total_ordering();
            texts_view.lemma_sort_by_ensures(chars_leq_rel());
            texts_view.to_multiset_ensures();
            texts_view.sort_by(chars_leq_rel()).to_multiset_ensures();
        }
        return Err(ControlError::new(
            ErrorCode::MissingTarget,
            concat(action.as_str(), " cannot resolve the requested window index"),
        ));
    }
    let chosen = sorted[k].clone();
    let ghost sorted_view = texts_view.sort_by(chars_leq_rel());
    proof {
        lemma_chars_le_total_ordering();
        texts_view.lemma_sort_by_ensures(chars_leq_rel());
        texts_view.to_multiset_ensures();
        sorted_view.to_multiset_ensures();
        assert(string_views(sorted@)[k as int] == chosen@);
        assert(sorted_view[k as int] == chosen@);
        assert(sorted_view.contains(chosen@));
        assert(texts_view.contains(chosen@));
    }
    let mut j: usize = 0;
    while j < n
        invariant
            n == ids@.len(),
            j <= n,
            texts_view == ids@.map_values(|x: WindowId| window_text(x)),
            texts_view.contains(chosen@),
            (k as int) < n,
            k == index as usize,
            chosen@ == texts_view.sort_by(chars_leq_rel())[k as int],
            forall|q: int| 0 <= q < j ==> window_text(#[trigger] ids@[q]) != chosen@,
        decreases n - j,
    {
        let t = decimal_string(ids[j].0 as u64);
        if crate::json::str_eq(t.as_str(), chosen.as_str()) {
            assert(ids@.contains(ids@[j as int]));
            assert(window_text(ids@[j as int]) == chosen@);
            return Ok(ids[j]);
        }
        j = j + 1;
    }
    proof {
        let q = choose|q: int| 0 <= q < texts_view.len() && texts_view[q] == chosen@;
        assert(window_text(ids@[q]) == chosen@);
    }
    Err(ControlError::new(
        ErrorCode::MissingTarget,
        concat(action.as_str(), " cannot resolve the requested window index"),
    ))
}

/// The window a request's window selector names, among `window_ids`
/// with `active_window` active: no selector or the active selector take
/// the default window (see [`active_or_single_window_id`]); an id selector
/// takes the window with that text (`StaleTarget` when none has it); an
/// index selector orders the windows by text (see
/// [`resolve_index_from_ids`]); title selectors are not supported here.
pub fn target_window_id_for_target(
    target: &TargetSelector,
    active_window: Option<WindowId>,
    window_ids: &[WindowId],
    action: ActionKind,
) -> (result: Result<WindowId, ControlError>)
    ensures
        match target.window {
            None | Some(WindowTarget::Active) => match active_window {
                Some(w) => result matches Ok(r) && r == w,
                None => {
                    &&& window_ids@.len() == 1 ==> (result matches Ok(r) && r == window_ids@[0])
                    &&& window_ids@.len() == 0 ==> (result matches Err(e) && e.code == ErrorCode::MissingTarget
                        && e.message@ == action_name(action) + " requires an active Warp window"@)
                    &&& window_ids@.len() > 1 ==> (result matches Err(e) && e.code == ErrorCode::AmbiguousTarget
                        && e.message@ == action_name(action) + " requires an explicit window selector when no Warp window is active"@)
                },
            },
            Some(WindowTarget::Id { id }) => match result {
                Ok(w) => window_ids@.contains(w) && window_text(w) == id.0@,
                Err(e) => e.code == ErrorCode::StaleTarget
                    && e.message@ == action_name(action) + " cannot resolve the requested window id"@
                    && forall|q: int| 0 <= q < window_ids@.len() ==> window_text(#[trigger] window_ids@[q]) != id.0@,
            },
            Some(WindowTarget::Index { index }) => match result {
                Ok(w) => window_at_text_rank(window_ids@, index as int, w),
                Err(e) => e.code == ErrorCode::MissingTarget && index >= window_ids@.len()
                    && e.message@ == action_name(action) + " cannot resolve the requested window index"@,
            },
            Some(WindowTarget::Title { .. }) => result matches Err(e) && e.code == ErrorCode::InvalidSelector
                && e.message@ == action_name(action) + " only supports active, opaque window id, and window index selectors"@,
        },
{
    match &target.window {
        None | Some(WindowTarget::Active) => active_or_single_window_id(active_window, window_ids, action),
        Some(WindowTarget::Id { id }) => {
            let n = window_ids.len();
            let mut j: usize = 0;
            while j < n
                invariant
                    n == window_ids@.len(),
                    j <= n,
                    target.window == Some(WindowTarget::Id { id: *id }),
                    forall|q: int| 0 <= q < j ==> window_text(#[trigger] window_ids@[q]) != id.0@,
                decreases n - j,
            {
                let t = decimal_string(window_ids[j].0 as u64);
                if crate::json::str_eq(t.as_str(), id.0.as_str()) {
                    assert(window_ids@.contains(window_ids@[j as int]));
                    return Ok(window_ids[j]);
                }
                j = j + 1;
            }
            Err(ControlError::new(
                ErrorCode::StaleTarget,
                concat(action.as_str(), " cannot resolve the requested window id"),
            ))
        },
        Some(WindowTarget::Index { index }) => resolve_index_from_ids(window_ids, *index, action),
        Some(WindowTarget::Title { .. }) => Err(ControlError::new(
            ErrorCode::InvalidSelector,
            concat(action.as_str(), " only supports active, opaque window id, and window index selectors"),
        )),
    }
}

} // verus!
