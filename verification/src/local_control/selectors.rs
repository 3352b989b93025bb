//! Target selectors of local-control requests.
use vstd::prelude::*;

verus! {

/// An opaque window id, as the client received it.
#[derive(Clone, Debug, PartialEq, Eq)]
pub struct WindowSelector(pub String);

/// An opaque tab id, as the client received it.
#[derive(Clone, Debug, PartialEq, Eq)]
pub struct TabSelector(pub String);

/// An opaque pane id, as the client received it.
#[derive(Clone, Debug, PartialEq, Eq)]
pub struct PaneSelector(pub String);

/// An opaque session id, as the client received it.
#[derive(Clone, Debug, PartialEq, Eq)]
pub struct SessionSelector(pub String);

/// Which window a request targets.
#[derive(Clone, Debug)]
pub enum WindowTarget {
    Active,
    Id { id: WindowSelector },
    Index { index: u32 },
    Title { title: String },
}

/// Which tab a request targets.
#[derive(Clone, Debug)]
pub enum TabTarget {
    Active,
    Id { id: TabSelector },
    Index { index: u32 },
    Title { title: String },
}

/// Which pane a request targets.
#[derive(Clone, Debug)]
pub enum PaneTarget {
    Active,
    Id { id: PaneSelector },
    Index { index: u32 },
}

/// Which terminal session a request targets.
#[derive(Clone, Debug)]
pub enum SessionTarget {
    Active,
    Id { id: SessionSelector },
}

/// Which Warp Drive object a request targets.
#[derive(Clone, Debug)]
pub enum DriveTarget {
    Id { id: String },
}

/// Which file a request targets.
#[derive(Clone, Debug)]
pub enum FileTarget {
    Path { path: String },
    Id { id: String },
}

/// The target of a request, one optional selector per family.
#[derive(Clone, Debug)]
pub struct TargetSelector {
    pub window: Option<WindowTarget>,
    pub tab: Option<TabTarget>,
    pub pane: Option<PaneTarget>,
    pub session: Option<SessionTarget>,
    pub drive: Option<DriveTarget>,
    pub file: Option<FileTarget>,
}

impl Default for TargetSelector {
    fn default() -> (target: TargetSelector)
        ensures
            target.window is None,
            target.tab is None,
            target.pane is None,
            target.session is None,
            target.drive is None,
            target.file is None,
    {
        TargetSelector { window: None, tab: None, pane: None, session: None, drive: None, file: None }
    }
}

/// A copy of a tab selector.
pub(crate) fn copy_tab_target(tab: &Option<TabTarget>) -> (copy: Option<TabTarget>)
    ensures
        copy == *tab,
{
    match tab {
        None => None,
        Some(TabTarget::Active) => Some(TabTarget::Active),
        Some(TabTarget::Id { id }) => Some(TabTarget::Id { id: TabSelector(id.0.clone()) }),
        Some(TabTarget::Index { index }) => Some(TabTarget::Index { index: *index }),
        Some(TabTarget::Title { title }) => Some(TabTarget::Title { title: title.clone() }),
    }
}

/// A copy of a window selector.
pub(crate) fn copy_window_target(window: &Option<WindowTarget>) -> (copy: Option<WindowTarget>)
    ensures
        copy == *window,
{
    match window {
        None => None,
        Some(WindowTarget::Active) => Some(WindowTarget::Active),
        Some(WindowTarget::Id { id }) => Some(WindowTarget::Id { id: WindowSelector(id.0.clone()) }),
        Some(WindowTarget::Index { index }) => Some(WindowTarget::Index { index: *index }),
        Some(WindowTarget::Title { title }) => Some(WindowTarget::Title { title: title.clone() }),
    }
}

/// A copy of a pane selector.
pub(crate) fn copy_pane_target(pane: &Option<PaneTarget>) -> (copy: Option<PaneTarget>)
    ensures
        copy == *pane,
{
    match pane {
        None => None,
        Some(PaneTarget::Active) => Some(PaneTarget::Active),
        Some(PaneTarget::Id { id }) => Some(PaneTarget::Id { id: PaneSelector(id.0.clone()) }),
        Some(PaneTarget::Index { index }) => Some(PaneTarget::Index { index: *index }),
    }
}

/// A copy of a session selector.
pub(crate) fn copy_session_target(session: &Option<SessionTarget>) -> (copy: Option<SessionTarget>)
    ensures
        copy == *session,
{
    match session {
        None => None,
        Some(SessionTarget::Active) => Some(SessionTarget::Active),
        Some(SessionTarget::Id { id }) => Some(SessionTarget::Id { id: SessionSelector(id.0.clone()) }),
    }
}

} // verus!
