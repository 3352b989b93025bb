//! Which windows, tabs, panes and sessions a listing or an inspection
//! selects, given the target selectors and the state of the application.
use vstd::prelude::*;
use crate::json::str_eq;
use crate::local_control::protocol::{action_name, ActionKind, ControlError, ErrorCode};
use crate::local_control::resolver::{reject_target_families, require_active_window_id_for_action, window_text, WindowId};
use crate::local_control::selectors::{
    copy_pane_target, copy_session_target, copy_tab_target, copy_window_target, PaneTarget,
    SessionTarget, TabTarget, TargetSelector, WindowTarget,
};
use crate::text::{concat, decimal_string};

verus! {

/// A visible pane of a tab.
#[derive(Debug, Clone)]
pub struct PaneSnapshot {
    pub pane_id: String,
    /// The tab's focused pane.
    pub is_focused: bool,
    /// The pane of the tab's active terminal session.
    pub is_active_session: bool,
    pub has_terminal_session: bool,
}

/// A tab of a window.
#[derive(Debug, Clone)]
pub struct TabSnapshot {
    pub tab_id: String,
    pub title: String,
    pub panes: Vec<PaneSnapshot>,
}

/// The workspace of a window: its tabs and which one is active.
#[derive(Debug, Clone)]
pub struct WorkspaceSnapshot {
    pub active_tab_index: usize,
    pub tabs: Vec<TabSnapshot>,
}

/// A window, with its workspace if it has one.
#[derive(Debug, Clone)]
pub struct WindowSnapshot {
    pub window_id: WindowId,
    pub workspace: Option<WorkspaceSnapshot>,
}

/// The windows of the application, in order, and the active one.
#[derive(Debug, Clone)]
pub struct AppSnapshot {
    pub active_window: Option<WindowId>,
    pub windows: Vec<WindowSnapshot>,
}

/// A selected tab: the position of its window and its index in the window.
pub type TabPosition = (usize, usize);

/// A selected pane: its tab's position and its index among the tab's panes.
pub type PanePosition = (usize, usize, usize);

/// A refusal: its code and its message.
pub type Refusal = (ErrorCode, Seq<char>);

/// The ids of all windows, in order.
pub open spec fn all_window_ids(windows: Seq<WindowSnapshot>) -> Seq<WindowId> {
    windows.map_values(|w: WindowSnapshot| w.window_id)
}

/// The first of the first `k` windows whose id reads `text`.
pub open spec fn window_named(windows: Seq<WindowSnapshot>, text: Seq<char>, k: int) -> Option<int>
    decreases k,
{
    if k <= 0 {
        None
    } else {
        match window_named(windows, text, k - 1) {
            Some(p) => Some(p),
            None => if window_text(windows[k - 1].window_id) == text { Some(k - 1) } else { None },
        }
    }
}

/// The first of the first `k` windows with id `id`.
pub open spec fn window_at(windows: Seq<WindowSnapshot>, id: WindowId, k: int) -> Option<int>
    decreases k,
{
    if k <= 0 {
        None
    } else {
        match window_at(windows, id, k - 1) {
            Some(p) => Some(p),
            None => if windows[k - 1].window_id == id { Some(k - 1) } else { None },
        }
    }
}

/// The active window, or `MissingTarget`.
pub open spec fn active_window_ids(app: AppSnapshot, action: ActionKind) -> Result<Seq<WindowId>, Refusal> {
    match app.active_window {
        Some(w) => Ok(seq![w]),
        None => Err((ErrorCode::MissingTarget, action_name(action) + " requires an active Warp window"@)),
    }
}

/// The windows a request selects: the active one when asked for or when
/// the narrower selectors need it, the one with the requested id, or all.
pub open spec fn selected_windows(target: TargetSelector, force_active: bool, action: ActionKind, app: AppSnapshot) -> Result<Seq<WindowId>, Refusal> {
    if action == ActionKind::WindowList && (target.tab is Some || target.pane is Some || target.session is Some) {
        Err((ErrorCode::InvalidSelector, action_name(action) + " does not accept tab, pane, or session selectors"@))
    } else {
        match target.window {
            None => if force_active { active_window_ids(app, action) } else { Ok(all_window_ids(app.windows@)) },
            Some(WindowTarget::Active) => active_window_ids(app, action),
            Some(WindowTarget::Id { id }) => match window_named(app.windows@, id.0@, app.windows@.len() as int) {
                Some(p) => Ok(seq![app.windows@[p].window_id]),
                None => Err((ErrorCode::StaleTarget, action_name(action) + " cannot resolve the requested window id"@)),
            },
            Some(WindowTarget::Index { .. }) | Some(WindowTarget::Title { .. }) =>
                Err((ErrorCode::InvalidSelector, action_name(action) + " only supports active and opaque window id selectors"@)),
        }
    }
}

/// The plain value of a result carrying a list.
pub open spec fn list_result<T>(r: Result<Vec<T>, ControlError>) -> Result<Seq<T>, Refusal> {
    match r {
        Ok(v) => Ok(v@),
        Err(e) => Err((e.code, e.message@)),
    }
}

/// The tabs of the window with id `id`, if it has a workspace.
pub open spec fn window_tabs(app: AppSnapshot, id: WindowId) -> Seq<TabPosition> {
    match window_at(app.windows@, id, app.windows@.len() as int) {
        Some(p) => match app.windows@[p].workspace {
            Some(ws) => Seq::new(ws.tabs@.len(), |t: int| (p as usize, t as usize)),
            None => Seq::empty(),
        },
        None => Seq::empty(),
    }
}

/// The tabs of the given windows, window by window.
pub open spec fn tab_entries(app: AppSnapshot, ids: Seq<WindowId>) -> Seq<TabPosition>
    decreases ids.len(),
{
    if ids.len() == 0 {
        Seq::empty()
    } else {
        tab_entries(app, ids.drop_last()) + window_tabs(app, ids.last())
    }
}

/// The workspace of the window at a position.
pub open spec fn workspace_of(app: AppSnapshot, window: usize) -> WorkspaceSnapshot {
    app.windows@[window as int].workspace.unwrap()
}

/// The tab at a position.
pub open spec fn tab_of(app: AppSnapshot, e: TabPosition) -> TabSnapshot {
    workspace_of(app, e.0).tabs@[e.1 as int]
}

/// The pane at a position.
pub open spec fn pane_of(app: AppSnapshot, e: PanePosition) -> PaneSnapshot {
    tab_of(app, (e.0, e.1)).panes@[e.2 as int]
}

/// How a tab selector narrows the tabs.
pub enum TabFilter {
    Active,
    Id(Seq<char>),
    Index(u32),
}

/// Whether a tab passes a filter.
pub open spec fn tab_passes(app: AppSnapshot, filter: TabFilter) -> spec_fn(TabPosition) -> bool {
    |e: TabPosition| match filter {
        TabFilter::Active => e.1 == workspace_of(app, e.0).active_tab_index,
        TabFilter::Id(id) => tab_of(app, e).tab_id@ == id,
        TabFilter::Index(i) => e.1 as u32 == i,
    }
}

/// The filter a tab selector applies (the active tab when it names none).
pub open spec fn tab_filter_of(target: TargetSelector) -> TabFilter {
    match target.tab {
        Some(TabTarget::Id { id }) => TabFilter::Id(id.0@),
        Some(TabTarget::Index { index }) => TabFilter::Index(index),
        _ => TabFilter::Active,
    }
}

/// A non-empty selection, or `code`.
pub open spec fn nonempty_or<T>(s: Seq<T>, refusal: Refusal) -> Result<Seq<T>, Refusal> {
    if s.len() == 0 { Err(refusal) } else { Ok(s) }
}

/// The tabs a request selects.
pub open spec fn selected_tabs(target: TargetSelector, action: ActionKind, app: AppSnapshot) -> Result<Seq<TabPosition>, Refusal> {
    let force = (target.tab matches Some(TabTarget::Active) || target.tab matches Some(TabTarget::Index { .. }))
        || (target.pane matches Some(PaneTarget::Active) || target.pane matches Some(PaneTarget::Index { .. }))
        || target.session matches Some(SessionTarget::Active);
    let needs_active_tab = (target.pane matches Some(PaneTarget::Active) || target.pane matches Some(PaneTarget::Index { .. }))
        || target.session matches Some(SessionTarget::Active);
    match selected_windows(target, force, action, app) {
        Err(c) => Err(c),
        Ok(ids) => {
            let all = tab_entries(app, ids);
            match target.tab {
                None => if needs_active_tab {
                    nonempty_or(all.filter(tab_passes(app, TabFilter::Active)), (ErrorCode::MissingTarget, action_name(action) + " requires an active tab"@))
                } else {
                    Ok(all)
                },
                Some(TabTarget::Active) => nonempty_or(all.filter(tab_passes(app, TabFilter::Active)),
                    (ErrorCode::MissingTarget, action_name(action) + " requires an active tab"@)),
                Some(TabTarget::Id { id }) => nonempty_or(all.filter(tab_passes(app, TabFilter::Id(id.0@))),
                    (ErrorCode::StaleTarget, action_name(action) + " cannot resolve the requested tab id"@)),
                Some(TabTarget::Index { index }) => nonempty_or(all.filter(tab_passes(app, TabFilter::Index(index))),
                    (ErrorCode::StaleTarget, action_name(action) + " cannot resolve the requested tab index"@)),
                Some(TabTarget::Title { .. }) =>
                    Err((ErrorCode::InvalidSelector, action_name(action) + " only supports active, opaque tab id, and tab index selectors"@)),
            }
        },
    }
}

/// The visible panes of the given tabs, tab by tab.
pub open spec fn pane_entries(app: AppSnapshot, tabs: Seq<TabPosition>) -> Seq<PanePosition>
    decreases tabs.len(),
{
    if tabs.len() == 0 {
        Seq::empty()
    } else {
        let e = tabs.last();
        pane_entries(app, tabs.drop_last())
            + Seq::new(tab_of(app, e).panes@.len(), |k: int| (e.0, e.1, k as usize))
    }
}

/// How a pane or session selector narrows the panes.
pub enum PaneFilter {
    ActiveSession,
    Focused,
    Id(Seq<char>),
    Index(u32),
    /// A terminal session, selected by no selector, by the active one, or by id.
    Session(Option<Option<Seq<char>>>),
}

/// Whether a pane passes a filter.
pub open spec fn pane_passes(app: AppSnapshot, filter: PaneFilter) -> spec_fn(PanePosition) -> bool {
    |e: PanePosition| match filter {
        PaneFilter::ActiveSession => pane_of(app, e).is_active_session,
        PaneFilter::Focused => pane_of(app, e).is_focused,
        PaneFilter::Id(id) => pane_of(app, e).pane_id@ == id,
        PaneFilter::Index(i) => e.2 as u32 == i,
        PaneFilter::Session(which) => pane_of(app, e).has_terminal_session && match which {
            None => true,
            Some(None) => pane_of(app, e).is_active_session,
            Some(Some(id)) => pane_of(app, e).pane_id@ == id,
        },
    }
}

/// The panes a request selects.
pub open spec fn selected_panes(target: TargetSelector, action: ActionKind, app: AppSnapshot) -> Result<Seq<PanePosition>, Refusal> {
    match selected_tabs(target, action, app) {
        Err(c) => Err(c),
        Ok(tabs) => {
            let all = pane_entries(app, tabs);
            match target.pane {
                None => if target.session matches Some(SessionTarget::Active) {
                    nonempty_or(all.filter(pane_passes(app, PaneFilter::ActiveSession)),
                        (ErrorCode::MissingTarget, action_name(action) + " requires an active terminal session"@))
                } else {
                    Ok(all)
                },
                Some(PaneTarget::Active) => nonempty_or(all.filter(pane_passes(app, PaneFilter::Focused)),
                    (ErrorCode::MissingTarget, action_name(action) + " requires an active pane"@)),
                Some(PaneTarget::Id { id }) => nonempty_or(all.filter(pane_passes(app, PaneFilter::Id(id.0@))),
                    (ErrorCode::StaleTarget, action_name(action) + " cannot resolve the requested pane id"@)),
                Some(PaneTarget::Index { index }) => nonempty_or(all.filter(pane_passes(app, PaneFilter::Index(index))),
                    (ErrorCode::StaleTarget, action_name(action) + " cannot resolve the requested pane index"@)),
            }
        },
    }
}

/// The session filter of a session selector.
pub open spec fn session_filter(target: TargetSelector) -> PaneFilter {
    PaneFilter::Session(match target.session {
        None => None,
        Some(SessionTarget::Active) => Some(None),
        Some(SessionTarget::Id { id }) => Some(Some(id.0@)),
    })
}

/// The terminal sessions a `session.list` request selects; an explicit
/// session id that selects none is stale.
pub open spec fn selected_sessions(target: TargetSelector, app: AppSnapshot) -> Result<Seq<PanePosition>, Refusal> {
    match selected_panes(target, ActionKind::SessionList, app) {
        Err(c) => Err(c),
        Ok(panes) => {
            let sessions = panes.filter(pane_passes(app, session_filter(target)));
            if target.session matches Some(SessionTarget::Id { .. }) && sessions.len() == 0 {
                Err((ErrorCode::StaleTarget, "session.list cannot resolve the requested session id"@))
            } else {
                Ok(sessions)
            }
        },
    }
}

/// Position of the first window whose id reads `text`.
fn find_window_named(windows: &Vec<WindowSnapshot>, text: &str) -> (found: Option<usize>)
    ensures
        match found {
            Some(p) => window_named(windows@, text@, windows@.len() as int) == Some(p as int) && p < windows@.len(),
            None => window_named(windows@, text@, windows@.len() as int) is None,
        },
{
    let n = windows.len();
    let mut i: usize = 0;
    while i < n
        invariant
            n == windows@.len(),
            i <= n,
            window_named(windows@, text@, i as int) is None,
        decreases n - i,
    {
        let t = decimal_string(windows[i].window_id.0 as u64);
        if str_eq(t.as_str(), text) {
            assert(window_named(windows@, text@, i + 1) == Some(i as int));
            proof { lemma_window_named_stable(windows@, text@, i + 1, n as int); }
            return Some(i);
        }
        i = i + 1;
    }
    None
}

proof fn lemma_window_named_stable(windows: Seq<WindowSnapshot>, text: Seq<char>, k: int, m: int)
    requires
        0 <= k <= m,
        window_named(windows, text, k) is Some,
    ensures
        window_named(windows, text, m) == window_named(windows, text, k),
    decreases m - k,
{
    if k < m {
        lemma_window_named_stable(windows, text, k, m - 1);
    }
}

proof fn lemma_window_at_stable(windows: Seq<WindowSnapshot>, id: WindowId, k: int, m: int)
    requires
        0 <= k <= m,
        window_at(windows, id, k) is Some,
    ensures
        window_at(windows, id, m) == window_at(windows, id, k),
    decreases m - k,
{
    if k < m {
        lemma_window_at_stable(windows, id, k, m - 1);
    }
}

/// Position of the first window with id `id`.
fn find_window(windows: &Vec<WindowSnapshot>, id: WindowId) -> (found: Option<usize>)
    ensures
        match found {
            Some(p) => window_at(windows@, id, windows@.len() as int) == Some(p as int) && p < windows@.len(),
            None => window_at(windows@, id, windows@.len() as int) is None,
        },
{
    let n = windows.len();
    let mut i: usize = 0;
    while i < n
        invariant
            n == windows@.len(),
            i <= n,
            window_at(windows@, id, i as int) is None,
        decreases n - i,
    {
        if windows[i].window_id == id {
            assert(window_at(windows@, id, i + 1) == Some(i as int));
            proof { lemma_window_at_stable(windows@, id, i + 1, n as int); }
            return Some(i);
        }
        i = i + 1;
    }
    None
}

/// The windows a request selects.
pub fn select_window_ids(target: &TargetSelector, force_active: bool, action: ActionKind, app: &AppSnapshot) -> (result: Result<Vec<WindowId>, ControlError>)
    ensures
        list_result(result) == selected_windows(*target, force_active, action, *app),
{
    if action == ActionKind::WindowList && (target.tab.is_some() || target.pane.is_some() || target.session.is_some()) {
        return Err(ControlError::new(
            ErrorCode::InvalidSelector,
            concat(action.as_str(), " does not accept tab, pane, or session selectors"),
        ));
    }
    let use_active = match &target.window {
        None => force_active,
        Some(WindowTarget::Active) => true,
        Some(WindowTarget::Id { id }) => {
            return match find_window_named(&app.windows, id.0.as_str()) {
                Some(p) => {
                    let mut ids: Vec<WindowId> = Vec::new();
                    ids.push(app.windows[p].window_id);
                    Ok(ids)
                },
                None => Err(ControlError::new(
                    ErrorCode::StaleTarget,
                    concat(action.as_str(), " cannot resolve the requested window id"),
                )),
            };
        },
        Some(WindowTarget::Index { .. }) | Some(WindowTarget::Title { .. }) => {
            return Err(ControlError::new(
                ErrorCode::InvalidSelector,
                concat(action.as_str(), " only supports active and opaque window id selectors"),
            ));
        },
    };
    if use_active {
        let w = require_active_window_id_for_action(app.active_window, action)?;
        let mut ids: Vec<WindowId> = Vec::new();
        ids.push(w);
        assert(ids@ =~= seq![w]);
        return Ok(ids);
    }
    let mut ids: Vec<WindowId> = Vec::new();
    let n = app.windows.len();
    let mut i: usize = 0;
    while i < n
        invariant
            n == app.windows@.len(),
            i <= n,
            ids@ == all_window_ids(app.windows@.take(i as int)),
        decreases n - i,
    {
        ids.push(app.windows[i].window_id);
        assert(all_window_ids(app.windows@.take(i + 1)) =~= all_window_ids(app.windows@.take(i as int)).push(app.windows@[i as int].window_id));
        i = i + 1;
    }
    assert(app.windows@.take(n as int) =~= app.windows@);
    Ok(ids)
}

/// The tabs of the given windows, window by window.
fn collect_tab_entries(app: &AppSnapshot, ids: &Vec<WindowId>) -> (entries: Vec<TabPosition>)
    ensures
        entries@ == tab_entries(*app, ids@),
{
    let mut entries: Vec<TabPosition> = Vec::new();
    let n = ids.len();
    let mut i: usize = 0;
    while i < n
        invariant
            n == ids@.len(),
            i <= n,
            entries@ == tab_entries(*app, ids@.take(i as int)),
        decreases n - i,
    {
        proof {
            assert(ids@.take(i + 1).drop_last() =~= ids@.take(i as int));
        }
        let ghost before = entries@;
        let ghost wanted = window_tabs(*app, ids@[i as int]);
        match find_window(&app.windows, ids[i]) {
            Some(p) => {
                match &app.windows[p].workspace {
                    Some(ws) => {
                        let count = ws.tabs.len();
                        let mut t: usize = 0;
                        while t < count
                            invariant
                                count == ws.tabs@.len(),
                                t <= count,
                                wanted == Seq::new(count as nat, |k: int| (p, k as usize)),
                                entries@ == before + wanted.take(t as int),
                            decreases count - t,
                        {
                            entries.push((p, t));
                            assert(wanted.take(t + 1) =~= wanted.take(t as int).push((p, t)));
                            assert(entries@ =~= before + wanted.take(t + 1));
                            t = t + 1;
                        }
                        assert(wanted.take(count as int) =~= wanted);
                    },
                    None => {
                        assert(entries@ =~= before + wanted);
                    },
                }
            },
            None => {
                assert(entries@ =~= before + wanted);
            },
        }
        i = i + 1;
    }
    assert(ids@.take(n as int) =~= ids@);
    entries
}

/// Whether a tab passes a filter.
fn tab_matches(app: &AppSnapshot, e: TabPosition, active: bool, id: Option<&str>, index: Option<u32>, Ghost(filter): Ghost<TabFilter>) -> (passes: bool)
    requires
        (e.0 as int) < app.windows@.len(),
        app.windows@[e.0 as int].workspace is Some,
        (e.1 as int) < workspace_of(*app, e.0).tabs@.len(),
        match filter {
            TabFilter::Active => active,
            TabFilter::Id(t) => !active && (id matches Some(s) && s@ == t),
            TabFilter::Index(i) => !active && id is None && index == Some(i),
        },
    ensures
        passes == (tab_passes(*app, filter))(e),
{
    let ws = match &app.windows[e.0].workspace {
        Some(ws) => ws,
        None => return false,
    };
    if active {
        e.1 == ws.active_tab_index
    } else {
        match id {
            Some(s) => str_eq(ws.tabs[e.1].tab_id.as_str(), s),
            None => match index {
                Some(i) => e.1 as u32 == i,
                None => false,
            },
        }
    }
}

/// Whether every position names a tab of a window with a workspace.
pub open spec fn valid_tabs(app: AppSnapshot, s: Seq<TabPosition>) -> bool {
    forall|k: int| 0 <= k < s.len() ==> {
        let e = #[trigger] s[k];
        &&& (e.0 as int) < app.windows@.len()
        &&& app.windows@[e.0 as int].workspace is Some
        &&& (e.1 as int) < workspace_of(app, e.0).tabs@.len()
    }
}

proof fn lemma_tab_entries_valid(app: AppSnapshot, ids: Seq<WindowId>)
    ensures
        valid_tabs(app, tab_entries(app, ids)),
    decreases ids.len(),
{
    if ids.len() > 0 {
        lemma_tab_entries_valid(app, ids.drop_last());
        lemma_window_at_bound(app.windows@, ids.last(), app.windows@.len() as int);
        let a = tab_entries(app, ids.drop_last());
        let b = window_tabs(app, ids.last());
        assert forall|k: int| 0 <= k < (a + b).len() implies {
            let e = #[trigger] (a + b)[k];
            &&& (e.0 as int) < app.windows@.len()
            &&& app.windows@[e.0 as int].workspace is Some
            &&& (e.1 as int) < workspace_of(app, e.0).tabs@.len()
        } by {
            if k < a.len() {
                assert((a + b)[k] == a[k]);
            } else {
                let j = k - a.len();
                assert((a + b)[k] == b[j]);
                match window_at(app.windows@, ids.last(), app.windows@.len() as int) {
                    Some(p) => {
                        assert(app.windows.len() == app.windows@.len());
                        match app.windows@[p].workspace {
                            Some(ws) => {
                                assert(ws.tabs.len() == ws.tabs@.len());
                                assert(b[j] == (p as usize, j as usize));
                            },
                            None => {},
                        }
                    },
                    None => {},
                }
            }
        }
    }
}

proof fn lemma_window_at_bound(windows: Seq<WindowSnapshot>, id: WindowId, k: int)
    requires
        0 <= k <= windows.len(),
    ensures
        window_at(windows, id, k) matches Some(p) ==> 0 <= p < k && windows[p].window_id == id,
    decreases k,
{
    if k > 0 {
        lemma_window_at_bound(windows, id, k - 1);
    }
}

/// The tabs of `all` that pass a filter, in order.
fn filter_tabs(app: &AppSnapshot, all: &Vec<TabPosition>, active: bool, id: Option<&str>, index: Option<u32>, Ghost(filter): Ghost<TabFilter>) -> (kept: Vec<TabPosition>)
    requires
        valid_tabs(*app, all@),
        match filter {
            TabFilter::Active => active,
            TabFilter::Id(t) => !active && (id matches Some(s) && s@ == t),
            TabFilter::Index(i) => !active && id is None && index == Some(i),
        },
    ensures
        kept@ == all@.filter(tab_passes(*app, filter)),
{
    let mut kept: Vec<TabPosition> = Vec::new();
    let n = all.len();
    let mut i: usize = 0;
    while i < n
        invariant
            n == all@.len(),
            i <= n,
            valid_tabs(*app, all@),
            match filter {
                TabFilter::Active => active,
                TabFilter::Id(t) => !active && (id matches Some(s) && s@ == t),
                TabFilter::Index(x) => !active && id is None && index == Some(x),
            },
            kept@ == all@.take(i as int).filter(tab_passes(*app, filter)),
        decreases n - i,
    {
        proof {
            assert(all@.take(i + 1) =~= all@.take(i as int).push(all@[i as int]));
            all@.take(i as int).lemma_filter_push(all@[i as int], tab_passes(*app, filter));
        }
        let e = all[i];
        if tab_matches(app, e, active, id, index, Ghost(filter)) {
            kept.push(e);
        }
        i = i + 1;
    }
    assert(all@.take(n as int) =~= all@);
    kept
}

/// The tabs a request selects.
pub fn select_tab_entries(target: &TargetSelector, action: ActionKind, app: &AppSnapshot) -> (result: Result<Vec<TabPosition>, ControlError>)
    ensures
        list_result(result) == selected_tabs(*target, action, *app),
        result matches Ok(v) ==> valid_tabs(*app, v@),
{
    let pane_needs_tab = match &target.pane {
        Some(PaneTarget::Active) | Some(PaneTarget::Index { .. }) => true,
        _ => false,
    };
    let session_active = match &target.session {
        Some(SessionTarget::Active) => true,
        _ => false,
    };
    let tab_needs_window = match &target.tab {
        Some(TabTarget::Active) | Some(TabTarget::Index { .. }) => true,
        _ => false,
    };
    let ids = select_window_ids(target, tab_needs_window || pane_needs_tab || session_active, action, app)?;
    let all = collect_tab_entries(app, &ids);
    proof {
        lemma_tab_entries_valid(*app, ids@);
    }
    let needs_active_tab = pane_needs_tab || session_active;
    let (kept, code, message) = match &target.tab {
        None => {
            if !needs_active_tab {
                return Ok(all);
            }
            (filter_tabs(app, &all, true, None, None, Ghost(TabFilter::Active)), ErrorCode::MissingTarget, " requires an active tab")
        },
        Some(TabTarget::Active) => {
            (filter_tabs(app, &all, true, None, None, Ghost(TabFilter::Active)), ErrorCode::MissingTarget, " requires an active tab")
        },
        Some(TabTarget::Id { id }) => {
            (filter_tabs(app, &all, false, Some(id.0.as_str()), None, Ghost(TabFilter::Id(id.0@))), ErrorCode::StaleTarget, " cannot resolve the requested tab id")
        },
        Some(TabTarget::Index { index }) => {
            (filter_tabs(app, &all, false, None, Some(*index), Ghost(TabFilter::Index(*index))), ErrorCode::StaleTarget, " cannot resolve the requested tab index")
        },
        Some(TabTarget::Title { .. }) => {
            return Err(ControlError::new(
                ErrorCode::InvalidSelector,
                concat(action.as_str(), " only supports active, opaque tab id, and tab index selectors"),
            ));
        },
    };
    if kept.len() == 0 {
        return Err(ControlError::new(code, concat(action.as_str(), message)));
    }
    proof {
        let f = tab_filter_of(*target);
        assert forall|k: int| 0 <= k < kept@.len() implies {
            let e = #[trigger] kept@[k];
            &&& (e.0 as int) < app.windows@.len()
            &&& app.windows@[e.0 as int].workspace is Some
            &&& (e.1 as int) < workspace_of(*app, e.0).tabs@.len()
        } by {
            assert(kept@.contains(kept@[k]));
            all@.lemma_filter_contains_rev(tab_passes(*app, f), kept@[k]);
            let j = choose|j: int| 0 <= j < all@.len() && all@[j] == kept@[k];
            assert(all@[j] == kept@[k]);
        }
    }
    Ok(kept)
}

/// Whether every position names a visible pane of a selected tab.
pub open spec fn valid_panes(app: AppSnapshot, s: Seq<PanePosition>) -> bool {
    forall|k: int| 0 <= k < s.len() ==> {
        let e = #[trigger] s[k];
        &&& (e.0 as int) < app.windows@.len()
        &&& app.windows@[e.0 as int].workspace is Some
        &&& (e.1 as int) < workspace_of(app, e.0).tabs@.len()
        &&& (e.2 as int) < tab_of(app, (e.0, e.1)).panes@.len()
    }
}

proof fn lemma_pane_entries_valid(app: AppSnapshot, tabs: Seq<TabPosition>)
    requires
        valid_tabs(app, tabs),
    ensures
        valid_panes(app, pane_entries(app, tabs)),
    decreases tabs.len(),
{
    if tabs.len() > 0 {
        let rest = tabs.drop_last();
        assert(valid_tabs(app, rest)) by {
            assert forall|k: int| 0 <= k < rest.len() implies {
                let e = #[trigger] rest[k];
                &&& (e.0 as int) < app.windows@.len()
                &&& app.windows@[e.0 as int].workspace is Some
                &&& (e.1 as int) < workspace_of(app, e.0).tabs@.len()
            } by {
                assert(rest[k] == tabs[k]);
            }
        }
        lemma_pane_entries_valid(app, rest);
        let e = tabs.last();
        assert(tabs[tabs.len() - 1] == e);
        let a = pane_entries(app, rest);
        let b = Seq::new(tab_of(app, e).panes@.len(), |k: int| (e.0, e.1, k as usize));
        assert(tab_of(app, e).panes.len() == tab_of(app, e).panes@.len());
        assert forall|k: int| 0 <= k < (a + b).len() implies {
            let x = #[trigger] (a + b)[k];
            &&& (x.0 as int) < app.windows@.len()
            &&& app.windows@[x.0 as int].workspace is Some
            &&& (x.1 as int) < workspace_of(app, x.0).tabs@.len()
            &&& (x.2 as int) < tab_of(app, (x.0, x.1)).panes@.len()
        } by {
            if k < a.len() {
                assert((a + b)[k] == a[k]);
            } else {
                assert((a + b)[k] == b[k - a.len()]);
            }
        }
    }
}

/// The visible panes of the given tabs, tab by tab.
fn collect_pane_entries(app: &AppSnapshot, tabs: &Vec<TabPosition>) -> (entries: Vec<PanePosition>)
    requires
        valid_tabs(*app, tabs@),
    ensures
        entries@ == pane_entries(*app, tabs@),
{
    let mut entries: Vec<PanePosition> = Vec::new();
    let n = tabs.len();
    let mut i: usize = 0;
    while i < n
        invariant
            n == tabs@.len(),
            i <= n,
            valid_tabs(*app, tabs@),
            entries@ == pane_entries(*app, tabs@.take(i as int)),
        decreases n - i,
    {
        proof {
            assert(tabs@.take(i + 1).drop_last() =~= tabs@.take(i as int));
            assert(tabs@.take(i + 1).last() == tabs@[i as int]);
        }
        let e = tabs[i];
        assert(tabs@[i as int] == e);
        let ghost before = entries@;
        let ghost wanted = Seq::new(tab_of(*app, e).panes@.len(), |k: int| (e.0, e.1, k as usize));
        let ws = match &app.windows[e.0].workspace {
            Some(ws) => ws,
            None => {
                assert(false);
                return entries;
            },
        };
        let tab = &ws.tabs[e.1];
        let count = tab.panes.len();
        let mut k: usize = 0;
        while k < count
            invariant
                count == tab.panes@.len(),
                *tab == tab_of(*app, e),
                k <= count,
                wanted == Seq::new(count as nat, |j: int| (e.0, e.1, j as usize)),
                entries@ == before + wanted.take(k as int),
            decreases count - k,
        {
            entries.push((e.0, e.1, k));
            assert(wanted.take(k + 1) =~= wanted.take(k as int).push((e.0, e.1, k)));
            assert(entries@ =~= before + wanted.take(k + 1));
            k = k + 1;
        }
        assert(wanted.take(count as int) =~= wanted);
        i = i + 1;
    }
    assert(tabs@.take(n as int) =~= tabs@);
    entries
}

/// Which panes a filter keeps, in exec form.
enum PaneTest<'a> {
    ActiveSession,
    Focused,
    Id(&'a str),
    Index(u32),
    Session(Option<Option<&'a str>>),
}

/// The filter a pane test stands for.
spec fn pane_test_filter(test: PaneTest) -> PaneFilter {
    match test {
        PaneTest::ActiveSession => PaneFilter::ActiveSession,
        PaneTest::Focused => PaneFilter::Focused,
        PaneTest::Id(s) => PaneFilter::Id(s@),
        PaneTest::Index(i) => PaneFilter::Index(i),
        PaneTest::Session(which) => PaneFilter::Session(match which {
            None => None,
            Some(None) => Some(None),
            Some(Some(s)) => Some(Some(s@)),
        }),
    }
}

/// Whether a pane passes a test.
fn pane_matches(app: &AppSnapshot, e: PanePosition, test: &PaneTest) -> (passes: bool)
    requires
        valid_panes(*app, seq![e]),
    ensures
        passes == (pane_passes(*app, pane_test_filter(*test)))(e),
{
    assert(seq![e][0] == e);
    let ws = match &app.windows[e.0].workspace {
        Some(ws) => ws,
        None => return false,
    };
    let pane = &ws.tabs[e.1].panes[e.2];
    match test {
        PaneTest::ActiveSession => pane.is_active_session,
        PaneTest::Focused => pane.is_focused,
        PaneTest::Id(s) => str_eq(pane.pane_id.as_str(), s),
        PaneTest::Index(i) => e.2 as u32 == *i,
        PaneTest::Session(which) => {
            pane.has_terminal_session && match which {
                None => true,
                Some(None) => pane.is_active_session,
                Some(Some(s)) => str_eq(pane.pane_id.as_str(), s),
            }
        },
    }
}

/// The panes of `all` that pass a test, in order.
fn filter_panes(app: &AppSnapshot, all: &Vec<PanePosition>, test: &PaneTest) -> (kept: Vec<PanePosition>)
    requires
        valid_panes(*app, all@),
    ensures
        kept@ == all@.filter(pane_passes(*app, pane_test_filter(*test))),
        valid_panes(*app, kept@),
{
    let ghost pred = pane_passes(*app, pane_test_filter(*test));
    let mut kept: Vec<PanePosition> = Vec::new();
    let n = all.len();
    let mut i: usize = 0;
    while i < n
        invariant
            n == all@.len(),
            i <= n,
            valid_panes(*app, all@),
            pred == pane_passes(*app, pane_test_filter(*test)),
            kept@ == all@.take(i as int).filter(pred),
        decreases n - i,
    {
        proof {
            assert(all@.take(i + 1) =~= all@.take(i as int).push(all@[i as int]));
            all@.take(i as int).lemma_filter_push(all@[i as int], pred);
        }
        let e = all[i];
        proof {
            assert(all@[i as int] == e);
            assert(valid_panes(*app, seq![e])) by {
                assert forall|k: int| 0 <= k < 1 implies {
                    let x = #[trigger] seq![e][k];
                    &&& (x.0 as int) < app.windows@.len()
                    &&& app.windows@[x.0 as int].workspace is Some
                    &&& (x.1 as int) < workspace_of(*app, x.0).tabs@.len()
                    &&& (x.2 as int) < tab_of(*app, (x.0, x.1)).panes@.len()
                } by {
                    assert(seq![e][k] == all@[i as int]);
                }
            }
        }
        if pane_matches(app, e, test) {
            kept.push(e);
        }
        i = i + 1;
    }
    assert(all@.take(n as int) =~= all@);
    proof {
        assert forall|k: int| 0 <= k < kept@.len() implies {
            let x = #[trigger] kept@[k];
            &&& (x.0 as int) < app.windows@.len()
            &&& app.windows@[x.0 as int].workspace is Some
            &&& (x.1 as int) < workspace_of(*app, x.0).tabs@.len()
            &&& (x.2 as int) < tab_of(*app, (x.0, x.1)).panes@.len()
        } by {
            assert(kept@.contains(kept@[k]));
            all@.lemma_filter_contains_rev(pred, kept@[k]);
            let j = choose|j: int| 0 <= j < all@.len() && all@[j] == kept@[k];
            assert(all@[j] == kept@[k]);
        }
    }
    kept
}

/// The panes a request selects.
pub fn select_pane_entries(target: &TargetSelector, action: ActionKind, app: &AppSnapshot) -> (result: Result<Vec<PanePosition>, ControlError>)
    ensures
        list_result(result) == selected_panes(*target, action, *app),
        result matches Ok(v) ==> valid_panes(*app, v@),
{
    let tabs = select_tab_entries(target, action, app)?;
    let all = collect_pane_entries(app, &tabs);
    proof {
        lemma_pane_entries_valid(*app, tabs@);
    }
    let (test, code, message) = match &target.pane {
        None => match &target.session {
            Some(SessionTarget::Active) => (PaneTest::ActiveSession, ErrorCode::MissingTarget, " requires an active terminal session"),
            _ => return Ok(all),
        },
        Some(PaneTarget::Active) => (PaneTest::Focused, ErrorCode::MissingTarget, " requires an active pane"),
        Some(PaneTarget::Id { id }) => (PaneTest::Id(id.0.as_str()), ErrorCode::StaleTarget, " cannot resolve the requested pane id"),
        Some(PaneTarget::Index { index }) => (PaneTest::Index(*index), ErrorCode::StaleTarget, " cannot resolve the requested pane index"),
    };
    let kept = filter_panes(app, &all, &test);
    if kept.len() == 0 {
        return Err(ControlError::new(code, concat(action.as_str(), message)));
    }
    Ok(kept)
}

/// The windows a `window.list` request selects.
pub fn window_list_ids(target: &TargetSelector, app: &AppSnapshot) -> (result: Result<Vec<WindowId>, ControlError>)
    ensures
        list_result(result) == selected_windows(*target, false, ActionKind::WindowList, *app),
{
    select_window_ids(target, false, ActionKind::WindowList, app)
}

/// The tabs a `tab.list` request selects; pane and session selectors are
/// refused.
pub fn tab_list_entries(target: &TargetSelector, app: &AppSnapshot) -> (result: Result<Vec<TabPosition>, ControlError>)
    ensures
        list_result(result) == (if target.pane is Some || target.session is Some {
            Err::<Seq<TabPosition>, Refusal>((ErrorCode::InvalidSelector, action_name(ActionKind::TabList) + " does not accept "@ + "pane or session selectors"@))
        } else {
            selected_tabs(*target, ActionKind::TabList, *app)
        }),
        result matches Ok(v) ==> valid_tabs(*app, v@),
{
    reject_target_families(ActionKind::TabList, target.pane.is_some() || target.session.is_some(), "pane or session selectors")?;
    select_tab_entries(target, ActionKind::TabList, app)
}

/// The panes a `pane.list` request selects; session selectors are refused.
pub fn pane_list_entries(target: &TargetSelector, app: &AppSnapshot) -> (result: Result<Vec<PanePosition>, ControlError>)
    ensures
        list_result(result) == (if target.session is Some {
            Err::<Seq<PanePosition>, Refusal>((ErrorCode::InvalidSelector, action_name(ActionKind::PaneList) + " does not accept "@ + "session selectors"@))
        } else {
            selected_panes(*target, ActionKind::PaneList, *app)
        }),
        result matches Ok(v) ==> valid_panes(*app, v@),
{
    reject_target_families(ActionKind::PaneList, target.session.is_some(), "session selectors")?;
    select_pane_entries(target, ActionKind::PaneList, app)
}

/// The terminal sessions a `session.list` request selects.
pub fn session_list_entries(target: &TargetSelector, app: &AppSnapshot) -> (result: Result<Vec<PanePosition>, ControlError>)
    ensures
        list_result(result) == selected_sessions(*target, *app),
        result matches Ok(v) ==> valid_panes(*app, v@),
{
    let panes = select_pane_entries(target, ActionKind::SessionList, app)?;
    let test = match &target.session {
        None => PaneTest::Session(None),
        Some(SessionTarget::Active) => PaneTest::Session(Some(None)),
        Some(SessionTarget::Id { id }) => PaneTest::Session(Some(Some(id.0.as_str()))),
    };
    assert(pane_test_filter(test) == session_filter(*target));
    let sessions = filter_panes(app, &panes, &test);
    let explicit = match &target.session {
        Some(SessionTarget::Id { .. }) => true,
        _ => false,
    };
    if explicit && sessions.len() == 0 {
        return Err(ControlError::new(
            ErrorCode::StaleTarget,
            "session.list cannot resolve the requested session id".to_owned(),
        ));
    }
    Ok(sessions)
}

/// The one item an inspection resolves to: `MissingTarget` when there is
/// none, `AmbiguousTarget` when there are several.
pub fn single_entry<T>(items: Vec<T>, action: ActionKind) -> (result: Result<T, ControlError>)
    ensures
        items@.len() == 1 ==> result == Ok::<T, ControlError>(items@[0]),
        items@.len() == 0 ==> (result matches Err(e) && e.code == ErrorCode::MissingTarget
            && e.message@ == action_name(action) + " could not resolve a target"@),
        items@.len() > 1 ==> (result matches Err(e) && e.code == ErrorCode::AmbiguousTarget
            && e.message@ == action_name(action) + " resolved multiple targets"@),
{
    let mut items = items;
    if items.len() == 1 {
        return Ok(items.remove(0));
    }
    if items.len() == 0 {
        return Err(ControlError::new(ErrorCode::MissingTarget, concat(action.as_str(), " could not resolve a target")));
    }
    Err(ControlError::new(ErrorCode::AmbiguousTarget, concat(action.as_str(), " resolved multiple targets")))
}

/// The selection a `window.inspect` runs: the requested window, the active
/// one by default.
pub open spec fn window_inspect_target(target: TargetSelector) -> TargetSelector {
    TargetSelector {
        window: if target.window is Some { target.window } else { Some(WindowTarget::Active) },
        tab: None,
        pane: None,
        session: None,
        drive: None,
        file: None,
    }
}

/// The selection a `tab.inspect` runs: the requested tab, the active one by
/// default.
pub open spec fn tab_inspect_target(target: TargetSelector) -> TargetSelector {
    TargetSelector {
        window: target.window,
        tab: if target.tab is Some { target.tab } else { Some(TabTarget::Active) },
        pane: None,
        session: None,
        drive: None,
        file: None,
    }
}

/// The selection a `pane.inspect` runs: the requested pane, the active one
/// by default.
pub open spec fn pane_inspect_target(target: TargetSelector) -> TargetSelector {
    TargetSelector {
        window: target.window,
        tab: target.tab,
        pane: if target.pane is Some { target.pane } else { Some(PaneTarget::Active) },
        session: None,
        drive: None,
        file: None,
    }
}

/// The selection a `session.inspect` runs: the requested session, the
/// active one by default.
pub open spec fn session_inspect_target(target: TargetSelector) -> TargetSelector {
    TargetSelector {
        window: target.window,
        tab: target.tab,
        pane: target.pane,
        session: if target.session is Some { target.session } else { Some(SessionTarget::Active) },
        drive: None,
        file: None,
    }
}

/// The plain value of an inspection's result.
pub open spec fn single_result<T>(r: Result<T, ControlError>) -> Result<T, Refusal> {
    match r {
        Ok(v) => Ok(v),
        Err(e) => Err((e.code, e.message@)),
    }
}

/// What an inspection answers for a selection: the one selected item, or
/// the selection's error, `MissingTarget` for none and `AmbiguousTarget`
/// for several.
pub open spec fn inspected<T>(selection: Result<Seq<T>, Refusal>, action: ActionKind) -> Result<T, Refusal> {
    match selection {
        Err(c) => Err(c),
        Ok(s) => if s.len() == 1 {
            Ok(s[0])
        } else if s.len() == 0 {
            Err((ErrorCode::MissingTarget, action_name(action) + " could not resolve a target"@))
        } else {
            Err((ErrorCode::AmbiguousTarget, action_name(action) + " resolved multiple targets"@))
        },
    }
}

/// The window a `window.inspect` request resolves to.
pub fn window_inspect(target: &TargetSelector, app: &AppSnapshot) -> (result: Result<WindowId, ControlError>)
    ensures
        single_result(result) == inspected(selected_windows(window_inspect_target(*target), false, ActionKind::WindowList, *app), ActionKind::WindowInspect),
{
    let window = match &target.window {
        Some(_) => copy_window_target(&target.window),
        None => Some(WindowTarget::Active),
    };
    let narrowed = TargetSelector { window, tab: None, pane: None, session: None, drive: None, file: None };
    assert(narrowed == window_inspect_target(*target));
    let ids = window_list_ids(&narrowed, app)?;
    single_entry(ids, ActionKind::WindowInspect)
}

/// The tab a `tab.inspect` request resolves to.
pub fn tab_inspect(target: &TargetSelector, app: &AppSnapshot) -> (result: Result<TabPosition, ControlError>)
    ensures
        single_result(result) == inspected(selected_tabs(tab_inspect_target(*target), ActionKind::TabList, *app), ActionKind::TabInspect),
{
    let tab = match &target.tab {
        Some(_) => copy_tab_target(&target.tab),
        None => Some(TabTarget::Active),
    };
    let narrowed = TargetSelector { window: copy_window_target(&target.window), tab, pane: None, session: None, drive: None, file: None };
    assert(narrowed == tab_inspect_target(*target));
    let tabs = tab_list_entries(&narrowed, app)?;
    single_entry(tabs, ActionKind::TabInspect)
}

/// The pane a `pane.inspect` request resolves to.
pub fn pane_inspect(target: &TargetSelector, app: &AppSnapshot) -> (result: Result<PanePosition, ControlError>)
    ensures
        single_result(result) == inspected(selected_panes(pane_inspect_target(*target), ActionKind::PaneList, *app), ActionKind::PaneInspect),
{
    let pane = match &target.pane {
        Some(_) => copy_pane_target(&target.pane),
        None => Some(PaneTarget::Active),
    };
    let narrowed = TargetSelector {
        window: copy_window_target(&target.window),
        tab: copy_tab_target(&target.tab),
        pane,
        session: None,
        drive: None,
        file: None,
    };
    assert(narrowed == pane_inspect_target(*target));
    let panes = pane_list_entries(&narrowed, app)?;
    single_entry(panes, ActionKind::PaneInspect)
}

/// The session a `session.inspect` request resolves to.
pub fn session_inspect(target: &TargetSelector, app: &AppSnapshot) -> (result: Result<PanePosition, ControlError>)
    ensures
        single_result(result) == inspected(selected_sessions(session_inspect_target(*target), *app), ActionKind::SessionInspect),
{
    let session = match &target.session {
        Some(_) => copy_session_target(&target.session),
        None => Some(SessionTarget::Active),
    };
    let narrowed = TargetSelector {
        window: copy_window_target(&target.window),
        tab: copy_tab_target(&target.tab),
        pane: copy_pane_target(&target.pane),
        session,
        drive: None,
        file: None,
    };
    assert(narrowed == session_inspect_target(*target));
    let sessions = session_list_entries(&narrowed, app)?;
    single_entry(sessions, ActionKind::SessionInspect)
}

/// A row of a window listing.
#[derive(Debug, Clone)]
pub struct WindowRow {
    pub window_id: String,
    pub is_active: bool,
    /// The title of the window's active tab, when it has a workspace.
    pub title: Option<String>,
}

/// A row of a tab listing.
#[derive(Debug, Clone)]
pub struct TabRow {
    pub tab_id: String,
    pub window_id: String,
    pub index: u32,
    pub is_active: bool,
    pub title: String,
}

/// A row of a pane listing.
#[derive(Debug, Clone)]
pub struct PaneRow {
    pub pane_id: String,
    pub tab_id: String,
    pub index: u32,
    pub is_active: bool,
    pub has_terminal_session: bool,
}

/// A row of a session listing.
#[derive(Debug, Clone)]
pub struct SessionRow {
    pub session_id: String,
    pub pane_id: String,
    pub is_active: bool,
}

/// The title a window shows: its active tab's, if it has a workspace with
/// that tab.
pub open spec fn window_title(app: AppSnapshot, id: WindowId) -> Option<Seq<char>> {
    match window_at(app.windows@, id, app.windows@.len() as int) {
        Some(p) => match app.windows@[p].workspace {
            Some(ws) => if ws.active_tab_index < ws.tabs@.len() { Some(ws.tabs@[ws.active_tab_index as int].title@) } else { None },
            None => None,
        },
        None => None,
    }
}

proof fn lemma_window_at_absent(windows: Seq<WindowSnapshot>, id: WindowId, k: int)
    requires
        0 <= k <= windows.len(),
        forall|q: int| 0 <= q < k ==> (#[trigger] windows[q]).window_id != id,
    ensures
        window_at(windows, id, k) is None,
    decreases k,
{
    if k > 0 {
        lemma_window_at_absent(windows, id, k - 1);
    }
}

/// A window is titled after its active tab: for the first window with a
/// given id, whose workspace's active tab index is in range, the title is
/// the title of the tab at that index, whatever tabs come before or after.
pub proof fn lemma_window_title_is_active_tab_title(app: AppSnapshot, p: int)
    requires
        0 <= p < app.windows@.len(),
        forall|q: int| 0 <= q < p ==> (#[trigger] app.windows@[q]).window_id != app.windows@[p].window_id,
        app.windows@[p].workspace is Some,
        app.windows@[p].workspace->0.active_tab_index < app.windows@[p].workspace->0.tabs@.len(),
    ensures
        window_title(app, app.windows@[p].window_id) == Some(
            app.windows@[p].workspace->0.tabs@[app.windows@[p].workspace->0.active_tab_index as int].title@,
        ),
{
    let id = app.windows@[p].window_id;
    lemma_window_at_absent(app.windows@, id, p);
    assert(window_at(app.windows@, id, p + 1) == Some(p));
    lemma_window_at_stable(app.windows@, id, p + 1, app.windows@.len() as int);
}

/// The rows of a window listing, one per selected window.
pub fn window_rows(app: &AppSnapshot, ids: &Vec<WindowId>) -> (rows: Vec<WindowRow>)
    ensures
        rows@.len() == ids@.len(),
        forall|k: int| 0 <= k < rows@.len() ==> {
            &&& (#[trigger] rows@[k]).window_id@ == window_text(ids@[k])
            &&& rows@[k].is_active == (app.active_window == Some(ids@[k]))
            &&& match rows@[k].title {
                Some(t) => window_title(*app, ids@[k]) == Some(t@),
                None => window_title(*app, ids@[k]) is None,
            }
        },
{
    let mut rows: Vec<WindowRow> = Vec::new();
    let n = ids.len();
    let mut i: usize = 0;
    while i < n
        invariant
            n == ids@.len(),
            i <= n,
            rows@.len() == i,
            forall|k: int| 0 <= k < rows@.len() ==> {
                &&& (#[trigger] rows@[k]).window_id@ == window_text(ids@[k])
                &&& rows@[k].is_active == (app.active_window == Some(ids@[k]))
                &&& match rows@[k].title {
                    Some(t) => window_title(*app, ids@[k]) == Some(t@),
                    None => window_title(*app, ids@[k]) is None,
                }
            },
        decreases n - i,
    {
        let id = ids[i];
        let title = match find_window(&app.windows, id) {
            Some(p) => match &app.windows[p].workspace {
                Some(ws) => {
                    if ws.active_tab_index < ws.tabs.len() {
                        Some(ws.tabs[ws.active_tab_index].title.clone())
                    } else {
                        None
                    }
                },
                None => None,
            },
            None => None,
        };
        let is_active = match app.active_window {
            Some(w) => w == id,
            None => false,
        };
        rows.push(WindowRow { window_id: decimal_string(id.0 as u64), is_active, title });
        i = i + 1;
    }
    rows
}

/// The rows of a tab listing, one per selected tab.
pub fn tab_rows(app: &AppSnapshot, tabs: &Vec<TabPosition>) -> (rows: Vec<TabRow>)
    requires
        valid_tabs(*app, tabs@),
    ensures
        rows@.len() == tabs@.len(),
        forall|k: int| 0 <= k < rows@.len() ==> {
            let e = tabs@[k];
            &&& (#[trigger] rows@[k]).tab_id@ == tab_of(*app, e).tab_id@
            &&& rows@[k].window_id@ == window_text(app.windows@[e.0 as int].window_id)
            &&& rows@[k].index == e.1 as u32
            &&& rows@[k].is_active == (e.1 == workspace_of(*app, e.0).active_tab_index)
            &&& rows@[k].title@ == tab_of(*app, e).title@
        },
{
    let mut rows: Vec<TabRow> = Vec::new();
    let n = tabs.len();
    let mut i: usize = 0;
    while i < n
        invariant
            n == tabs@.len(),
            i <= n,
            valid_tabs(*app, tabs@),
            rows@.len() == i,
            forall|k: int| 0 <= k < rows@.len() ==> {
                let e = tabs@[k];
                &&& (#[trigger] rows@[k]).tab_id@ == tab_of(*app, e).tab_id@
                &&& rows@[k].window_id@ == window_text(app.windows@[e.0 as int].window_id)
                &&& rows@[k].index == e.1 as u32
                &&& rows@[k].is_active == (e.1 == workspace_of(*app, e.0).active_tab_index)
                &&& rows@[k].title@ == tab_of(*app, e).title@
            },
        decreases n - i,
    {
        let e = tabs[i];
        assert(tabs@[i as int] == e);
        let window = &app.windows[e.0];
        let ws = match &window.workspace {
            Some(ws) => ws,
            None => {
                assert(false);
                return rows;
            },
        };
        let tab = &ws.tabs[e.1];
        rows.push(TabRow {
            tab_id: tab.tab_id.clone(),
            window_id: decimal_string(window.window_id.0 as u64),
            index: e.1 as u32,
            is_active: e.1 == ws.active_tab_index,
            title: tab.title.clone(),
        });
        i = i + 1;
    }
    rows
}

/// The rows of a pane listing, one per selected pane; a pane is active
/// when it is its tab's focused pane.
pub fn pane_rows(app: &AppSnapshot, panes: &Vec<PanePosition>) -> (rows: Vec<PaneRow>)
    requires
        valid_panes(*app, panes@),
    ensures
        rows@.len() == panes@.len(),
        forall|k: int| 0 <= k < rows@.len() ==> {
            let e = panes@[k];
            &&& (#[trigger] rows@[k]).pane_id@ == pane_of(*app, e).pane_id@
            &&& rows@[k].tab_id@ == tab_of(*app, (e.0, e.1)).tab_id@
            &&& rows@[k].index == e.2 as u32
            &&& rows@[k].is_active == pane_of(*app, e).is_focused
            &&& rows@[k].has_terminal_session == pane_of(*app, e).has_terminal_session
        },
{
    let mut rows: Vec<PaneRow> = Vec::new();
    let n = panes.len();
    let mut i: usize = 0;
    while i < n
        invariant
            n == panes@.len(),
            i <= n,
            valid_panes(*app, panes@),
            rows@.len() == i,
            forall|k: int| 0 <= k < rows@.len() ==> {
                let e = panes@[k];
                &&& (#[trigger] rows@[k]).pane_id@ == pane_of(*app, e).pane_id@
                &&& rows@[k].tab_id@ == tab_of(*app, (e.0, e.1)).tab_id@
                &&& rows@[k].index == e.2 as u32
                &&& rows@[k].is_active == pane_of(*app, e).is_focused
                &&& rows@[k].has_terminal_session == pane_of(*app, e).has_terminal_session
            },
        decreases n - i,
    {
        let e = panes[i];
        assert(panes@[i as int] == e);
        let ws = match &app.windows[e.0].workspace {
            Some(ws) => ws,
            None => {
                assert(false);
                return rows;
            },
        };
        let tab = &ws.tabs[e.1];
        let pane = &tab.panes[e.2];
        rows.push(PaneRow {
            pane_id: pane.pane_id.clone(),
            tab_id: tab.tab_id.clone(),
            index: e.2 as u32,
            is_active: pane.is_focused,
            has_terminal_session: pane.has_terminal_session,
        });
        i = i + 1;
    }
    rows
}

/// The rows of a session listing, one per selected session; a session is
/// identified by its pane.
pub fn session_rows(app: &AppSnapshot, sessions: &Vec<PanePosition>) -> (rows: Vec<SessionRow>)
    requires
        valid_panes(*app, sessions@),
    ensures
        rows@.len() == sessions@.len(),
        forall|k: int| 0 <= k < rows@.len() ==> {
            let e = sessions@[k];
            &&& (#[trigger] rows@[k]).session_id@ == pane_of(*app, e).pane_id@
            &&& rows@[k].pane_id@ == pane_of(*app, e).pane_id@
            &&& rows@[k].is_active == pane_of(*app, e).is_active_session
        },
{
    let mut rows: Vec<SessionRow> = Vec::new();
    let n = sessions.len();
    let mut i: usize = 0;
    while i < n
        invariant
            n == sessions@.len(),
            i <= n,
            valid_panes(*app, sessions@),
            rows@.len() == i,
            forall|k: int| 0 <= k < rows@.len() ==> {
                let e = sessions@[k];
                &&& (#[trigger] rows@[k]).session_id@ == pane_of(*app, e).pane_id@
                &&& rows@[k].pane_id@ == pane_of(*app, e).pane_id@
                &&& rows@[k].is_active == pane_of(*app, e).is_active_session
            },
        decreases n - i,
    {
        let e = sessions[i];
        assert(sessions@[i as int] == e);
        let ws = match &app.windows[e.0].workspace {
            Some(ws) => ws,
            None => {
                assert(false);
                return rows;
            },
        };
        let pane = &ws.tabs[e.1].panes[e.2];
        rows.push(SessionRow {
            session_id: pane.pane_id.clone(),
            pane_id: pane.pane_id.clone(),
            is_active: pane.is_active_session,
        });
        i = i + 1;
    }
    rows
}

} // verus!
