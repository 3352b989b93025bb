//! Tab resolution, closing and creation for local-control actions, over the
//! tabs of a workspace window as plain values.
use vstd::prelude::*;
use crate::json::{str_eq, JsonValue};
use crate::local_control::protocol::{action_name, ActionKind, ControlError, ErrorCode};
use crate::local_control::bridge::{ack_response, is_ack};
use crate::local_control::resolver::reject_target_families;
use crate::local_control::selectors::{TabTarget, TargetSelector};
use crate::text::{decimal, decimal_string};

verus! {

/// A tab of a workspace window: its id and its display title.
#[derive(Clone, Debug)]
pub struct TabInfo {
    pub id: String,
    pub title: String,
}

/// The indices of the tabs whose title is `title`, in order.
pub open spec fn title_matches(tabs: Seq<TabInfo>, title: Seq<char>) -> Seq<int>
    decreases tabs.len(),
{
    if tabs.len() == 0 {
        Seq::empty()
    } else if tabs.last().title@ == title {
        title_matches(tabs.drop_last(), title).push(tabs.len() - 1)
    } else {
        title_matches(tabs.drop_last(), title)
    }
}

/// The index of the first tab whose id is `id`.
pub open spec fn tab_id_index(tabs: Seq<TabInfo>, id: Seq<char>) -> Option<int>
    decreases tabs.len(),
{
    if tabs.len() == 0 {
        None
    } else if tabs.last().id@ == id && tab_id_index(tabs.drop_last(), id) is None {
        Some(tabs.len() - 1)
    } else {
        tab_id_index(tabs.drop_last(), id)
    }
}

/// The tab a tab selector names: an index below the tab count, the active
/// tab (also when there is no selector), the first tab with the id, or the
/// only tab with the title. Each failure has its code.
pub open spec fn tab_index_for(tab: Option<TabTarget>, tabs: Seq<TabInfo>, active_tab_index: usize) -> Result<int, (ErrorCode, Seq<char>)> {
    match tab {
        Some(TabTarget::Index { index }) => if index < tabs.len() {
            Ok(index as int)
        } else {
            Err((ErrorCode::MissingTarget, "tab selector index did not match a visible tab"@))
        },
        Some(TabTarget::Active) | None => Ok(active_tab_index as int),
        Some(TabTarget::Id { id }) => match tab_id_index(tabs, id.0@) {
            Some(i) => Ok(i),
            None => Err((ErrorCode::StaleTarget, "tab selector id did not match a visible tab"@)),
        },
        Some(TabTarget::Title { title }) => {
            let m = title_matches(tabs, title@);
            if m.len() == 1 {
                Ok(m[0])
            } else if m.len() == 0 {
                Err((ErrorCode::MissingTarget, "tab selector title did not match a visible tab"@))
            } else {
                Err((ErrorCode::AmbiguousTarget, "tab selector title matched multiple visible tabs"@))
            }
        },
    }
}

/// The spec value of a result that carries an index.
pub open spec fn index_result(r: Result<usize, ControlError>) -> Result<int, (ErrorCode, Seq<char>)> {
    match r {
        Ok(i) => Ok(i as int),
        Err(e) => Err((e.code, e.message@)),
    }
}

/// Resolves the tab selector of `target` against the tabs of a window.
pub fn tab_index_from_target(
    target: &TargetSelector,
    tabs: &[TabInfo],
    active_tab_index: usize,
) -> (result: Result<usize, ControlError>)
    ensures
        index_result(result) == tab_index_for(target.tab, tabs@, active_tab_index),
        result matches Err(e) ==> e.details is None,
{
    match &target.tab {
        Some(TabTarget::Index { index }) => {
            let i = *index as usize;
            if i < tabs.len() {
                Ok(i)
            } else {
                Err(ControlError::new(
                    ErrorCode::MissingTarget,
                    "tab selector index did not match a visible tab".to_owned(),
                ))
            }
        },
        Some(TabTarget::Active) | None => Ok(active_tab_index),
        Some(TabTarget::Id { id }) => {
            let n = tabs.len();
            let mut i: usize = 0;
            while i < n
                invariant
                    n == tabs@.len(),
                    i <= n,
                    target.tab == Some(TabTarget::Id { id: *id }),
                    forall|k: int| 0 <= k < i ==> (#[trigger] tabs@[k]).id@ != id.0@,
                decreases n - i,
            {
                if str_eq(tabs[i].id.as_str(), id.0.as_str()) {
                    proof {
                        lemma_tab_id_index(tabs@, id.0@, i as int);
                    }
                    return Ok(i);
                }
                i = i + 1;
            }
            proof {
                lemma_no_tab_id(tabs@, id.0@);
            }
            Err(ControlError::new(
                ErrorCode::StaleTarget,
                "tab selector id did not match a visible tab".to_owned(),
            ))
        },
        Some(TabTarget::Title { title }) => {
            let n = tabs.len();
            let mut matching: Vec<usize> = Vec::new();
            let mut i: usize = 0;
            while i < n
                invariant
                    n == tabs@.len(),
                    i <= n,
                    target.tab == Some(TabTarget::Title { title: *title }),
                    matching@.map_values(|x: usize| x as int) == title_matches(tabs@.take(i as int), title@),
                decreases n - i,
            {
                assert(tabs@.take(i + 1).drop_last() =~= tabs@.take(i as int));
                let ghost before = matching@;
                if str_eq(tabs[i].title.as_str(), title.as_str()) {
                    matching.push(i);
                    assert(matching@.map_values(|x: usize| x as int) =~= before.map_values(|x: usize| x as int).push(i as int));
                }
                i = i + 1;
            }
            assert(tabs@.take(n as int) =~= tabs@);
            assert(matching@.len() == title_matches(tabs@, title@).len());
            if matching.len() == 1 {
                assert(matching@.map_values(|x: usize| x as int)[0] == matching@[0] as int);
                Ok(matching[0])
            } else if matching.len() == 0 {
                Err(ControlError::new(
                    ErrorCode::MissingTarget,
                    "tab selector title did not match a visible tab".to_owned(),
                ))
            } else {
                Err(ControlError::new(
                    ErrorCode::AmbiguousTarget,
                    "tab selector title matched multiple visible tabs".to_owned(),
                ))
            }
        },
    }
}

proof fn lemma_tab_id_index(tabs: Seq<TabInfo>, id: Seq<char>, i: int)
    requires
        0 <= i < tabs.len(),
        tabs[i].id@ == id,
        forall|k: int| 0 <= k < i ==> (#[trigger] tabs[k]).id@ != id,
    ensures
        tab_id_index(tabs, id) == Some(i),
    decreases tabs.len(),
{
    if i < tabs.len() - 1 {
        lemma_tab_id_index(tabs.drop_last(), id, i);
    } else {
        lemma_no_tab_id(tabs.drop_last(), id);
    }
}

proof fn lemma_no_tab_id(tabs: Seq<TabInfo>, id: Seq<char>)
    requires
        forall|k: int| 0 <= k < tabs.len() ==> (#[trigger] tabs[k]).id@ != id,
    ensures
        tab_id_index(tabs, id) is None,
    decreases tabs.len(),
{
    if tabs.len() > 0 {
        lemma_no_tab_id(tabs.drop_last(), id);
    }
}

/// Which tabs `tab.close` closes.
#[derive(Clone, Copy, Debug, PartialEq, Eq, Structural)]
pub enum TabCloseMode {
    /// The selected tab.
    Target,
    /// The active tab.
    Active,
    /// Every tab but the selected one.
    Others,
    /// The tabs after the selected one.
    RightOf,
}

/// The indices `0..n`.
pub open spec fn indices_below(n: nat) -> Seq<int> {
    Seq::new(n, |i: int| i)
}

/// Whether an index differs from `selected`.
pub open spec fn other_than(selected: int) -> spec_fn(int) -> bool {
    |i: int| i != selected
}

/// The tabs a `tab.close` in `mode` closes, for the selected and active
/// tab indices and the tab count.
pub open spec fn tabs_to_close(mode: TabCloseMode, selected: int, active: int, tab_count: int) -> Seq<int> {
    match mode {
        TabCloseMode::Target => seq![selected],
        TabCloseMode::Active => seq![active],
        TabCloseMode::Others => indices_below(tab_count as nat).filter(other_than(selected)),
        TabCloseMode::RightOf => if selected + 1 <= tab_count {
            Seq::new((tab_count - selected - 1) as nat, |i: int| selected + 1 + i)
        } else {
            Seq::empty()
        },
    }
}

/// The plain value of a close plan: the tab indices to close.
pub open spec fn close_plan_view(r: Result<Vec<usize>, ControlError>) -> Result<Seq<int>, (ErrorCode, Seq<char>)> {
    match r {
        Ok(v) => Ok(v@.map_values(|x: usize| x as int)),
        Err(e) => Err((e.code, e.message@)),
    }
}

/// Whether a tab selector names a concrete tab (not the active one).
pub open spec fn concrete_tab_selector(tab: Option<TabTarget>) -> bool {
    !(tab is None || tab matches Some(TabTarget::Active))
}

/// What a `tab.close` request closes in a window with `tabs` whose active
/// tab is `active_tab_index`: pane and session selectors are refused; the
/// tab selector picks the selected tab; "active" mode refuses a concrete
/// selector.
pub open spec fn tab_close_plan(
    target: TargetSelector,
    mode: TabCloseMode,
    tabs: Seq<TabInfo>,
    active_tab_index: usize,
) -> Result<Seq<int>, (ErrorCode, Seq<char>)> {
    if target.pane is Some || target.session is Some {
        Err((ErrorCode::InvalidSelector, action_name(ActionKind::TabClose) + " does not accept "@ + "pane or session selectors"@))
    } else {
        match tab_index_for(target.tab, tabs, active_tab_index) {
            Err(refusal) => Err(refusal),
            Ok(selected) => if mode == TabCloseMode::Active && concrete_tab_selector(target.tab) {
                Err((ErrorCode::InvalidSelector, "tab.close active does not accept a concrete tab selector"@))
            } else {
                Ok(tabs_to_close(mode, selected, active_tab_index as int, tabs.len() as int))
            },
        }
    }
}

/// Decides which tabs a `tab.close` request closes; the caller closes them
/// (nothing when the list is empty) and reports a cancelled close.
pub fn plan_tab_close(
    target: &TargetSelector,
    mode: TabCloseMode,
    tabs: &[TabInfo],
    active_tab_index: usize,
) -> (result: Result<Vec<usize>, ControlError>)
    ensures
        close_plan_view(result) == tab_close_plan(*target, mode, tabs@, active_tab_index),
        result matches Err(e) ==> e.details is None,
{
    reject_target_families(
        ActionKind::TabClose,
        target.pane.is_some() || target.session.is_some(),
        "pane or session selectors",
    )?;
    let selected = tab_index_from_target(target, tabs, active_tab_index)?;
    let tab_count = tabs.len();
    let mut indices: Vec<usize> = Vec::new();
    match mode {
        TabCloseMode::Target => {
            indices.push(selected);
        },
        TabCloseMode::Active => {
            match &target.tab {
                None | Some(TabTarget::Active) => {},
                _ => {
                    return Err(ControlError::new(
                        ErrorCode::InvalidSelector,
                        "tab.close active does not accept a concrete tab selector".to_owned(),
                    ));
                },
            }
            indices.push(active_tab_index);
        },
        TabCloseMode::Others => {
            let mut i: usize = 0;
            while i < tab_count
                invariant
                    i <= tab_count,
                    indices@.map_values(|x: usize| x as int) == indices_below(i as nat).filter(other_than(selected as int)),
                decreases tab_count - i,
            {
                let ghost before = indices@;
                proof {
                    assert(indices_below((i + 1) as nat).drop_last() =~= indices_below(i as nat));
                    reveal(Seq::filter);
                }
                if i != selected {
                    indices.push(i);
                    assert(indices@.map_values(|x: usize| x as int) =~= before.map_values(|x: usize| x as int).push(i as int));
                }
                i = i + 1;
            }
        },
        TabCloseMode::RightOf => {
            if selected < tab_count {
                let mut i: usize = selected + 1;
                assert(indices@.map_values(|x: usize| x as int) =~= Seq::new(0, |k: int| selected + 1 + k));
                while i < tab_count
                    invariant
                        selected < tab_count,
                        selected + 1 <= i <= tab_count,
                        indices@.map_values(|x: usize| x as int) == Seq::new((i - selected - 1) as nat, |k: int| selected + 1 + k),
                    decreases tab_count - i,
                {
                    let ghost before = indices@;
                    indices.push(i);
                    assert(indices@.map_values(|x: usize| x as int) =~= before.map_values(|x: usize| x as int).push(i as int));
                    assert(indices@.map_values(|x: usize| x as int) =~= Seq::new((i + 1 - selected - 1) as nat, |k: int| selected + 1 + k));
                    i = i + 1;
                }
            }
        },
    }
    proof {
        let v = indices@.map_values(|x: usize| x as int);
        assert(tab_index_for(target.tab, tabs@, active_tab_index) == Ok::<int, (ErrorCode, Seq<char>)>(selected as int));
        if mode == TabCloseMode::Target {
            assert(v =~= seq![selected as int]);
        } else if mode == TabCloseMode::Active {
            assert(v =~= seq![active_tab_index as int]);
        } else if mode == TabCloseMode::Others {
            assert(v == tabs_to_close(mode, selected as int, active_tab_index as int, tab_count as int));
        } else {
            assert(v == tabs_to_close(mode, selected as int, active_tab_index as int, tab_count as int));
        }
    }
    Ok(indices)
}

/// The kind of tab `tab.create` opens.
#[derive(Clone, Copy, Debug, PartialEq, Eq, Structural)]
pub enum TabType {
    Terminal,
    Agent,
    Default,
    CloudAgent,
}

/// The parameters of `tab.create`.
#[derive(Clone, Debug)]
pub struct TabCreateParams {
    pub shell: Option<String>,
    pub tab_type: Option<TabType>,
}

/// What `tab.create` asks the workspace to do.
#[derive(Clone, Debug)]
pub enum TabCreatePlan {
    /// Open a terminal tab running the named shell.
    AddTabWithShell { shell: String },
    AddTerminalTab,
    AddAgentTab,
    AddDefaultTab,
}

/// Decides the workspace action of `tab.create`: a named shell opens a
/// terminal tab with that shell (not combinable with agent tab types);
/// otherwise the tab type picks the tab, a terminal by default; cloud-agent
/// tabs are unsupported.
pub fn tab_create_plan(params: &TabCreateParams) -> (result: Result<TabCreatePlan, ControlError>)
    ensures
        match params.shell {
            Some(shell) => if params.tab_type == Some(TabType::Agent) || params.tab_type == Some(TabType::CloudAgent) {
                result matches Err(e) && e.code == ErrorCode::InvalidParams
                    && e.message@ == "tab.create cannot combine an agent tab type with a shell"@
            } else {
                result matches Ok(TabCreatePlan::AddTabWithShell { shell: s }) && s@ == shell@
            },
            None => match params.tab_type {
                None | Some(TabType::Terminal) => result matches Ok(TabCreatePlan::AddTerminalTab),
                Some(TabType::Agent) => result matches Ok(TabCreatePlan::AddAgentTab),
                Some(TabType::Default) => result matches Ok(TabCreatePlan::AddDefaultTab),
                Some(TabType::CloudAgent) => result matches Err(e) && e.code == ErrorCode::UnsupportedAction
                    && e.message@ == "tab.create does not support cloud-agent tabs"@,
            },
        },
{
    if let Some(shell) = &params.shell {
        match params.tab_type {
            Some(TabType::Agent) | Some(TabType::CloudAgent) => {
                return Err(ControlError::new(
                    ErrorCode::InvalidParams,
                    "tab.create cannot combine an agent tab type with a shell".to_owned(),
                ));
            },
            _ => {
                return Ok(TabCreatePlan::AddTabWithShell { shell: shell.clone() });
            },
        }
    }
    match params.tab_type {
        None | Some(TabType::Terminal) => Ok(TabCreatePlan::AddTerminalTab),
        Some(TabType::Agent) => Ok(TabCreatePlan::AddAgentTab),
        Some(TabType::Default) => Ok(TabCreatePlan::AddDefaultTab),
        Some(TabType::CloudAgent) => Err(ControlError::new(
            ErrorCode::UnsupportedAction,
            "tab.create does not support cloud-agent tabs".to_owned(),
        )),
    }
}

/// A JSON member.
fn member(key: &str, value: JsonValue) -> (m: (String, JsonValue))
    ensures
        m.0@ == key@,
        m.1 == value,
{
    (key.to_owned(), value)
}

/// A JSON number for a count.
fn count_json(n: usize) -> (v: JsonValue)
    ensures
        v matches JsonValue::Number(t) && t@ == decimal(n as nat),
{
    JsonValue::Number(decimal_string(n as u64))
}

/// The response to `tab.create`: the action, `created`, the instance id,
/// the window it targeted, and the new tab's id with the tab counts before
/// and after and the active index.
pub fn tab_create_response(
    instance_id: Option<&str>,
    window_id: &str,
    tab_id: &str,
    previous_count: usize,
    count: usize,
    active_index: usize,
) -> (response: JsonValue)
    ensures
        response matches JsonValue::Object(m) && m@.len() == 5 && {
            &&& m@[0].0@ == "action"@
            &&& (m@[0].1 matches JsonValue::String(a) && a@ == action_name(ActionKind::TabCreate))
            &&& m@[1].0@ == "created"@ && m@[1].1 == JsonValue::Bool(true)
            &&& m@[2].0@ == "instance_id"@
            &&& (match instance_id {
                Some(i) => m@[2].1 matches JsonValue::String(t) && t@ == i@,
                None => m@[2].1 is Null,
            })
            &&& m@[3].0@ == "window"@
            &&& (m@[3].1 matches JsonValue::Object(w) && w@.len() == 2
                && w@[0].0@ == "selector"@ && w@[1].0@ == "id"@
                && (w@[0].1 matches JsonValue::String(s) && s@ == "target"@)
                && (w@[1].1 matches JsonValue::String(s) && s@ == window_id@))
            &&& m@[4].0@ == "tab"@
            &&& (m@[4].1 matches JsonValue::Object(t) && t@.len() == 4
                && t@[0].0@ == "id"@ && t@[1].0@ == "previous_count"@
                && t@[2].0@ == "count"@ && t@[3].0@ == "active_index"@
                && (t@[0].1 matches JsonValue::String(s) && s@ == tab_id@)
                && (t@[1].1 matches JsonValue::Number(s) && s@ == decimal(previous_count as nat))
                && (t@[2].1 matches JsonValue::Number(s) && s@ == decimal(count as nat))
                && (t@[3].1 matches JsonValue::Number(s) && s@ == decimal(active_index as nat)))
        },
{
    let mut window: Vec<(String, JsonValue)> = Vec::new();
    window.push(member("selector", JsonValue::String("target".to_owned())));
    window.push(member("id", JsonValue::String(window_id.to_owned())));
    let mut tab: Vec<(String, JsonValue)> = Vec::new();
    tab.push(member("id", JsonValue::String(tab_id.to_owned())));
    tab.push(member("previous_count", count_json(previous_count)));
    tab.push(member("count", count_json(count)));
    tab.push(member("active_index", count_json(active_index)));
    let mut members: Vec<(String, JsonValue)> = Vec::new();
    members.push(member("action", JsonValue::String(ActionKind::TabCreate.as_str().to_owned())));
    members.push(member("created", JsonValue::Bool(true)));
    members.push(member("instance_id", match instance_id {
        Some(i) => JsonValue::String(i.to_owned()),
        None => JsonValue::Null,
    }));
    members.push(member("window", JsonValue::Object(window)));
    members.push(member("tab", JsonValue::Object(tab)));
    JsonValue::Object(members)
}

/// What happens after a `tab.close` plan: an empty plan is acknowledged
/// at once; otherwise the planned tabs are closed.
#[derive(Debug)]
pub enum TabCloseStep {
    /// Nothing to close: reply with the acknowledgement.
    Acknowledge(JsonValue),
    /// Close these tabs, then report with [`tab_close_result`].
    Close(Vec<usize>),
}

/// The step after planning a `tab.close`: nothing is closed for an empty
/// plan, which is acknowledged; otherwise the planned tabs are closed.
pub fn tab_close_step(instance_id: Option<&str>, plan: Vec<usize>) -> (step: TabCloseStep)
    ensures
        plan@.len() == 0 ==> (step matches TabCloseStep::Acknowledge(r)
            && is_ack(r, match instance_id { Some(i) => Some(i@), None => None }, ActionKind::TabClose)),
        plan@.len() > 0 ==> (step matches TabCloseStep::Close(indices) && indices@ == plan@),
{
    if plan.len() == 0 {
        TabCloseStep::Acknowledge(ack_response(instance_id, ActionKind::TabClose))
    } else {
        TabCloseStep::Close(plan)
    }
}

/// The reply after closing the planned tabs: the acknowledgement when they
/// closed, `TargetStateConflict` when an app warning cancelled the close.
pub fn tab_close_result(instance_id: Option<&str>, closed: bool) -> (result: Result<JsonValue, ControlError>)
    ensures
        closed ==> (result matches Ok(r)
            && is_ack(r, match instance_id { Some(i) => Some(i@), None => None }, ActionKind::TabClose)),
        !closed ==> (result matches Err(e) && e.code == ErrorCode::TargetStateConflict
            && e.message@ == "tab close was cancelled by an existing app warning"@ && e.details is None),
{
    if closed {
        Ok(ack_response(instance_id, ActionKind::TabClose))
    } else {
        Err(ControlError::new(
            ErrorCode::TargetStateConflict,
            "tab close was cancelled by an existing app warning".to_owned(),
        ))
    }
}

} // verus!
