//! The cell structure of an editable Jupyter notebook: stable cell ids,
//! structural operations (insert, delete, move, convert), source edits,
//! and the dirty state, with the events the notebook view reports.
use vstd::prelude::*;
use crate::local_control::{is_name, path_parts, path_parts_of};
use crate::json::JsonValue;
use crate::notebook_output::{classify_all, classify_outputs};
use crate::text::string_from_chars;

verus! {

/// A stable identifier of a cell, independent of its position.
#[derive(Debug, Clone, Copy, PartialEq, Eq, Structural, Hash)]
pub struct CellId(pub u64);

/// The kind of a notebook cell.
#[derive(Debug, Clone, Copy, PartialEq, Eq, Structural)]
pub enum CellKind {
    Markdown,
    Code,
    Raw,
}

/// Where a new cell goes relative to its anchor.
#[derive(Debug, Clone, Copy, PartialEq, Eq, Structural)]
pub enum InsertPosition {
    Above,
    Below,
}

/// A pane-level request for the hosting pane.
#[derive(Debug, Clone, Copy, PartialEq, Eq, Structural)]
pub enum PaneEvent {
    Close,
    ToggleMaximized,
    FocusSelf,
}

/// Actions handled by the notebook view.
#[derive(Debug, Clone)]
pub enum JupyterNotebookAction {
    Focus,
    Close,
    Save,
    ToggleMaximized,
    /// Insert a new empty cell relative to `anchor` (or at an end when `None`).
    InsertCell { anchor: Option<CellId>, position: InsertPosition, kind: CellKind },
    DeleteCell(CellId),
    MoveCellUp(CellId),
    MoveCellDown(CellId),
    ConvertCell { id: CellId, kind: CellKind },
}

/// Events the notebook view emits to its host.
#[derive(Debug, Clone)]
pub enum JupyterNotebookEvent {
    /// The notebook went from clean to having unsaved edits.
    Dirtied,
    /// Save the serialized notebook `json`.
    SaveRequested { json: String },
    /// The file is not a notebook: open `json` as plain text.
    RawRequested { json: String },
    Focused,
    Pane(PaneEvent),
}

/// What the view does in answer to an action, besides changing its cells.
#[derive(Debug, Clone)]
pub enum NotebookEffect {
    /// Emit an event to the host.
    Emit(JupyterNotebookEvent),
    /// Take keyboard focus.
    FocusSelf,
    /// Serialize the notebook and emit `SaveRequested`.
    RequestSave,
    /// Rebuild the pane header's overflow menu.
    RefreshOverflowMenu,
}

/// One cell: its id, kind, source text and saved outputs (the outputs of
/// a code cell as the file holds them; they are shown, never edited).
#[derive(Debug)]
pub struct NotebookCell {
    pub id: CellId,
    pub kind: CellKind,
    pub source: String,
    pub outputs: Vec<JsonValue>,
}

/// The content of the view: parsed cells, or the raw text of a file that
/// is not a notebook.
#[derive(Debug)]
pub enum NotebookState {
    Notebook { cells: Vec<NotebookCell> },
    Raw { text: String },
}

/// The notebook view's model: its content, the counter that issues cell
/// ids, and whether there are unsaved edits.
#[derive(Debug)]
pub struct NotebookCells {
    pub state: NotebookState,
    pub next_cell_id: u64,
    pub dirty: bool,
}

/// The plain value of a cell: id, kind, source, saved outputs.
pub type CellView = (CellId, CellKind, Seq<char>, Seq<JsonValue>);

/// The plain value of a cell.
pub open spec fn cell_view(c: NotebookCell) -> CellView {
    (c.id, c.kind, c.source@, c.outputs@)
}

/// The saved outputs a cell keeps when converted to `kind`: a code cell
/// keeps them, any other kind has none.
pub open spec fn converted_outputs(kind: CellKind, outputs: Seq<JsonValue>) -> Seq<JsonValue> {
    match kind {
        CellKind::Code => outputs,
        _ => Seq::empty(),
    }
}

/// The number of read-only output items shown under a cell: the classified
/// saved outputs of a code cell, none for other kinds.
pub open spec fn shown_output_count(cell: CellView) -> nat {
    match cell.1 {
        CellKind::Code => classify_all(cell.3).len(),
        _ => 0,
    }
}

/// The plain values of the cells.
pub open spec fn cells_view(cells: Seq<NotebookCell>) -> Seq<CellView> {
    cells.map_values(|c: NotebookCell| cell_view(c))
}

/// Index of the cell with id `id`.
pub open spec fn cell_index(cells: Seq<CellView>, id: CellId) -> Option<int>
    decreases cells.len(),
{
    if cells.len() == 0 {
        None
    } else if cells.last().0 == id && cell_index(cells.drop_last(), id) is None {
        Some(cells.len() - 1)
    } else {
        cell_index(cells.drop_last(), id)
    }
}

/// Where `insert_cell` puts a new cell: next to its anchor, or at the start
/// (above) or end (below) when the anchor is absent or unknown.
pub open spec fn insert_index(cells: Seq<CellView>, anchor: Option<CellId>, position: InsertPosition) -> int {
    let found = match anchor {
        Some(a) => cell_index(cells, a),
        None => None,
    };
    match found {
        Some(i) => match position {
            InsertPosition::Above => i,
            InsertPosition::Below => i + 1,
        },
        None => match position {
            InsertPosition::Above => 0,
            InsertPosition::Below => cells.len() as int,
        },
    }
}

/// The positions a move of the cell `id` swaps: the cell and its neighbour
/// below (or above), when both exist.
pub open spec fn move_positions(cells: Seq<CellView>, id: CellId, down: bool) -> Option<(int, int)> {
    match cell_index(cells, id) {
        Some(i) => {
            let target = if down { i + 1 } else { i - 1 };
            if 0 <= target < cells.len() {
                Some((i, target))
            } else {
                None
            }
        },
        None => None,
    }
}

/// The cells after moving the cell `id` one position down (or up).
pub open spec fn cells_after_move(cells: Seq<CellView>, id: CellId, down: bool) -> Seq<CellView> {
    match move_positions(cells, id, down) {
        Some((i, t)) => cells.update(i, cells[t]).update(t, cells[i]),
        None => cells,
    }
}

/// The cells after inserting an empty cell `new_id` of `kind` next to `anchor`.
pub open spec fn cells_after_insert(
    cells: Seq<CellView>,
    anchor: Option<CellId>,
    position: InsertPosition,
    new_id: CellId,
    kind: CellKind,
) -> Seq<CellView> {
    cells.insert(insert_index(cells, anchor, position), (new_id, kind, Seq::<char>::empty(), Seq::<JsonValue>::empty()))
}

/// The cells after deleting the cell `id`.
pub open spec fn cells_after_delete(cells: Seq<CellView>, id: CellId) -> Seq<CellView> {
    match cell_index(cells, id) {
        Some(i) => cells.remove(i),
        None => cells,
    }
}

/// The effects of marking the notebook dirty: `Dirtied` only when it was clean.
pub open spec fn dirtied_effects(was_dirty: bool) -> Seq<EffectView> {
    if was_dirty {
        Seq::empty()
    } else {
        seq![EffectView::Emit(EventView::Dirtied)]
    }
}

/// The plain value of an event.
pub enum EventView {
    Dirtied,
    SaveRequested(Seq<char>),
    RawRequested(Seq<char>),
    Focused,
    Pane(PaneEvent),
}

/// The plain value of an effect.
pub enum EffectView {
    Emit(EventView),
    FocusSelf,
    RequestSave,
    RefreshOverflowMenu,
}

/// The plain value of an event.
pub open spec fn event_view(e: JupyterNotebookEvent) -> EventView {
    match e {
        JupyterNotebookEvent::Dirtied => EventView::Dirtied,
        JupyterNotebookEvent::SaveRequested { json } => EventView::SaveRequested(json@),
        JupyterNotebookEvent::RawRequested { json } => EventView::RawRequested(json@),
        JupyterNotebookEvent::Focused => EventView::Focused,
        JupyterNotebookEvent::Pane(p) => EventView::Pane(p),
    }
}

/// The plain values of effects.
pub open spec fn effects_view(effects: Seq<NotebookEffect>) -> Seq<EffectView> {
    effects.map_values(|e: NotebookEffect| match e {
        NotebookEffect::Emit(ev) => EffectView::Emit(event_view(ev)),
        NotebookEffect::FocusSelf => EffectView::FocusSelf,
        NotebookEffect::RequestSave => EffectView::RequestSave,
        NotebookEffect::RefreshOverflowMenu => EffectView::RefreshOverflowMenu,
    })
}

/// The plain cells of the notebook (empty for raw text).
pub open spec fn notebook_cells(state: NotebookState) -> Seq<CellView> {
    match state {
        NotebookState::Notebook { cells } => cells_view(cells@),
        NotebookState::Raw { .. } => Seq::empty(),
    }
}

/// Whether the content is raw text.
pub open spec fn is_raw(state: NotebookState) -> bool {
    state is Raw
}

impl NotebookCells {
    /// Cell ids are unique and were all issued before `next_cell_id`.
    pub open spec fn wf(&self) -> bool {
        let cells = notebook_cells(self.state);
        &&& forall|i: int, j: int| 0 <= i < j < cells.len() ==> (#[trigger] cells[i]).0 != (#[trigger] cells[j]).0
        &&& forall|i: int| 0 <= i < cells.len() ==> (#[trigger] cells[i]).0.0 < self.next_cell_id
    }

    /// The plain cells.
    pub open spec fn cells(&self) -> Seq<CellView> {
        notebook_cells(self.state)
    }

    /// A clean view over parsed cells (kind, source and saved outputs each),
    /// or over raw text when the file is not a notebook; cell ids are issued
    /// from `first_id` on.
    pub fn new(parsed: Option<Vec<(CellKind, String, Vec<JsonValue>)>>, raw_text: String, first_id: u64) -> (view: NotebookCells)
        requires
            match parsed {
                Some(cells) => first_id + cells@.len() <= u64::MAX,
                None => true,
            },
        ensures
            view.wf(),
            !view.dirty,
            match parsed {
                Some(cells) => {
                    &&& !is_raw(view.state)
                    &&& view.cells().len() == cells@.len()
                    &&& view.next_cell_id == first_id + cells@.len()
                    &&& forall|i: int| 0 <= i < cells@.len() ==> (#[trigger] view.cells()[i]) == (
                        CellId((first_id + i) as u64),
                        cells@[i].0,
                        cells@[i].1@,
                        cells@[i].2@,
                    )
                },
                None => view.state == NotebookState::Raw { text: raw_text } && view.next_cell_id == first_id,
            },
    {
        match parsed {
            Some(cells) => {
                let ghost entries = cells@;
                let mut out: Vec<NotebookCell> = Vec::new();
                let mut next = first_id;
                for entry in it: cells.into_iter()
                    invariant
                        it.seq() == entries,
                        first_id + entries.len() <= u64::MAX,
                        next == first_id + it.index(),
                        out@.len() == it.index(),
                        forall|k: int| 0 <= k < it.index() ==> cell_view(#[trigger] out@[k]) == (
                            CellId((first_id + k) as u64),
                            entries[k].0,
                            entries[k].1@,
                            entries[k].2@,
                        ),
                {
                    let (kind, source, outputs) = entry;
                    out.push(NotebookCell { id: CellId(next), kind, source, outputs });
                    next = next + 1;
                }
                let view = NotebookCells { state: NotebookState::Notebook { cells: out }, next_cell_id: next, dirty: false };
                assert forall|a: int| 0 <= a < view.cells().len() implies (#[trigger] view.cells()[a]) == (
                    CellId((first_id + a) as u64),
                    entries[a].0,
                    entries[a].1@,
                    entries[a].2@,
                ) by {
                    assert(view.cells()[a] == cell_view(out@[a]));
                }
                view
            },
            None => NotebookCells { state: NotebookState::Raw { text: raw_text }, next_cell_id: first_id, dirty: false },
        }
    }

    /// The text saved for a file that is not a notebook, verbatim; `None`
    /// for a parsed notebook, whose JSON the host serializes from its cells.
    pub fn raw_text(&self) -> (text: Option<String>)
        ensures
            match self.state {
                NotebookState::Raw { text: t } => text matches Some(r) && r@ == t@,
                NotebookState::Notebook { .. } => text is None,
            },
    {
        match &self.state {
            NotebookState::Raw { text } => Some(text.clone()),
            NotebookState::Notebook { .. } => None,
        }
    }

    /// Whether there are unsaved edits.
    pub fn is_dirty(&self) -> (dirty: bool)
        ensures
            dirty == self.dirty,
    {
        self.dirty
    }

    /// Clears the dirty flag after the host saved.
    pub fn mark_saved(&mut self)
        ensures
            !final(self).dirty,
            final(self).state == old(self).state,
            final(self).next_cell_id == old(self).next_cell_id,
    {
        self.dirty = false;
    }

    /// Marks the notebook dirty, reporting `Dirtied` when it was clean.
    fn mark_dirty(&mut self, effects: &mut Vec<NotebookEffect>)
        ensures
            final(self).dirty,
            final(self).state == old(self).state,
            final(self).next_cell_id == old(self).next_cell_id,
            effects_view(final(effects)@) == effects_view(old(effects)@) + dirtied_effects(old(self).dirty),
    {
        let ghost before = effects_view(effects@);
        if !self.dirty {
            self.dirty = true;
            effects.push(NotebookEffect::Emit(JupyterNotebookEvent::Dirtied));
            assert(effects_view(effects@) =~= before + dirtied_effects(false));
        } else {
            assert(effects_view(effects@) =~= before + dirtied_effects(true));
        }
    }

    /// Index of the cell with id `id`.
    fn find(cells: &Vec<NotebookCell>, id: CellId) -> (index: Option<usize>)
        ensures
            match index {
                Some(i) => cell_index(cells_view(cells@), id) == Some(i as int) && i < cells@.len()
                    && cells@[i as int].id == id,
                None => cell_index(cells_view(cells@), id) is None,
            },
    {
        let ghost v = cells_view(cells@);
        let n = cells.len();
        let mut i: usize = 0;
        while i < n
            invariant
                n == cells@.len(),
                v == cells_view(cells@),
                i <= n,
                forall|k: int| 0 <= k < i ==> (#[trigger] v[k]).0 != id,
            decreases n - i,
        {
            if cells[i].id == id {
                proof {
                    lemma_cell_index(v, id, i as int);
                    assert(v[i as int].0 == cells@[i as int].id);
                }
                return Some(i);
            }
            i = i + 1;
        }
        proof {
            lemma_no_cell_index(v, id);
        }
        None
    }

    /// Inserts an empty cell of `kind` next to `anchor` and marks the
    /// notebook dirty. The new cell gets the next id. A raw-text view gets
    /// no cell but is marked dirty all the same.
    pub fn insert_cell(&mut self, anchor: Option<CellId>, position: InsertPosition, kind: CellKind) -> (effects: Vec<NotebookEffect>)
        requires
            old(self).wf(),
            old(self).next_cell_id < u64::MAX,
        ensures
            final(self).wf(),
            final(self).dirty,
            final(self).next_cell_id == old(self).next_cell_id + 1,
            is_raw(final(self).state) == is_raw(old(self).state),
            !is_raw(old(self).state) ==> final(self).cells() == cells_after_insert(
                old(self).cells(),
                anchor,
                position,
                CellId(old(self).next_cell_id),
                kind,
            ),
            is_raw(old(self).state) ==> final(self).state == old(self).state,
            effects_view(effects@) == dirtied_effects(old(self).dirty),
    {
        let id = CellId(self.next_cell_id);
        self.next_cell_id = self.next_cell_id + 1;
        let ghost old_cells = self.cells();
        if let NotebookState::Notebook { cells } = &mut self.state {
            let at_end = match position {
                InsertPosition::Above => 0,
                InsertPosition::Below => cells.len(),
            };
            let index = match anchor {
                Some(a) => match NotebookCells::find(cells, a) {
                    Some(i) => match position {
                        InsertPosition::Above => i,
                        InsertPosition::Below => i + 1,
                    },
                    None => at_end,
                },
                None => at_end,
            };
            proof {
                lemma_cell_index_bounds(old_cells, anchor);
            }
            let ghost before = cells@;
            cells.insert(index, NotebookCell { id, kind, source: String::new(), outputs: Vec::new() });
            assert(cells_view(cells@) =~= cells_view(before).insert(index as int, (id, kind, Seq::<char>::empty(), Seq::<JsonValue>::empty())));
        }
        proof {
            let c = self.cells();
            assert forall|i: int, j: int| 0 <= i < j < c.len() implies (#[trigger] c[i]).0 != (#[trigger] c[j]).0 by {
                if !is_raw(self.state) {
                    let p = insert_index(old_cells, anchor, position);
                    let oi = if i < p { i } else { i - 1 };
                    let oj = if j < p { j } else { j - 1 };
                    if i != p && j != p {
                        assert(c[i] == old_cells[oi] && c[j] == old_cells[oj]);
                    } else if i == p {
                        assert(c[j] == old_cells[oj]);
                    } else {
                        assert(c[i] == old_cells[oi]);
                    }
                }
            }
            assert forall|i: int| 0 <= i < c.len() implies (#[trigger] c[i]).0.0 < self.next_cell_id by {
                if !is_raw(self.state) {
                    let p = insert_index(old_cells, anchor, position);
                    if i < p {
                        assert(c[i] == old_cells[i]);
                    } else if i > p {
                        assert(c[i] == old_cells[i - 1]);
                    }
                }
            }
        }
        let mut effects: Vec<NotebookEffect> = Vec::new();
        self.mark_dirty(&mut effects);
        assert(effects_view(Seq::<NotebookEffect>::empty()) =~= Seq::<EffectView>::empty());
        assert(Seq::<EffectView>::empty() + dirtied_effects(old(self).dirty) =~= dirtied_effects(old(self).dirty));
        effects
    }

    /// Deletes the cell with id `id`; marks the notebook dirty when there
    /// was one, and changes nothing otherwise.
    pub fn delete_cell(&mut self, id: CellId) -> (effects: Vec<NotebookEffect>)
        requires
            old(self).wf(),
        ensures
            final(self).wf(),
            final(self).next_cell_id == old(self).next_cell_id,
            is_raw(final(self).state) == is_raw(old(self).state),
            final(self).cells() == cells_after_delete(old(self).cells(), id),
            match cell_index(old(self).cells(), id) {
                Some(i) => {
                    &&& final(self).dirty
                    &&& effects_view(effects@) == dirtied_effects(old(self).dirty)
                },
                None => {
                    &&& final(self).cells() == old(self).cells()
                    &&& final(self).dirty == old(self).dirty
                    &&& effects@.len() == 0
                },
            },
    {
        let mut effects: Vec<NotebookEffect> = Vec::new();
        let ghost old_cells = self.cells();
        let mut removed = false;
        if let NotebookState::Notebook { cells } = &mut self.state {
            if let Some(i) = NotebookCells::find(cells, id) {
                let ghost before = cells@;
                cells.remove(i);
                assert(cells_view(cells@) =~= cells_view(before).remove(i as int));
                removed = true;
            }
        }
        proof {
            lemma_cell_index_bounds(old_cells, Some(id));
            let c = self.cells();
            if removed {
                let p = cell_index(old_cells, id)->0;
                assert forall|i: int, j: int| 0 <= i < j < c.len() implies (#[trigger] c[i]).0 != (#[trigger] c[j]).0 by {
                    let oi = if i < p { i } else { i + 1 };
                    let oj = if j < p { j } else { j + 1 };
                    assert(c[i] == old_cells[oi] && c[j] == old_cells[oj]);
                }
                assert forall|i: int| 0 <= i < c.len() implies (#[trigger] c[i]).0.0 < self.next_cell_id by {
                    let oi = if i < p { i } else { i + 1 };
                    assert(c[i] == old_cells[oi]);
                }
            }
        }
        if removed {
            self.mark_dirty(&mut effects);
            assert(effects_view(Seq::<NotebookEffect>::empty()) + dirtied_effects(old(self).dirty) =~= dirtied_effects(old(self).dirty));
        }
        effects
    }

    /// Moves the cell with id `id` one position down (or up); marks the
    /// notebook dirty when it moved. A cell already at the end it would
    /// move past, or an unknown id, changes nothing.
    pub fn move_cell(&mut self, id: CellId, down: bool) -> (effects: Vec<NotebookEffect>)
        requires
            old(self).wf(),
        ensures
            final(self).wf(),
            final(self).next_cell_id == old(self).next_cell_id,
            is_raw(final(self).state) == is_raw(old(self).state),
            final(self).cells() == cells_after_move(old(self).cells(), id, down),
            move_positions(old(self).cells(), id, down) is Some ==> final(self).dirty
                && effects_view(effects@) == dirtied_effects(old(self).dirty),
            move_positions(old(self).cells(), id, down) is None ==> final(self).dirty == old(self).dirty
                && effects@.len() == 0,
    {
        let mut effects: Vec<NotebookEffect> = Vec::new();
        let ghost old_cells = self.cells();
        let mut moved = false;
        proof {
            lemma_cell_index_bounds(old_cells, Some(id));
        }
        if let NotebookState::Notebook { cells } = &mut self.state {
            if let Some(i) = NotebookCells::find(cells, id) {
                let len = cells.len();
                if (down && i + 1 < len) || (!down && i > 0) {
                    let target = if down { i + 1 } else { i - 1 };
                    let ghost before = cells@;
                    let cell = cells.remove(i);
                    cells.insert(target, cell);
                    assert(cells_view(cells@) =~= cells_view(before).update(i as int, cells_view(before)[target as int]).update(target as int, cells_view(before)[i as int]));
                    moved = true;
                }
            }
        }
        proof {
            let c = self.cells();
            if moved {
                let p = cell_index(old_cells, id)->0;
                let t = if down { p + 1 } else { p - 1 };
                assert forall|a: int, b: int| 0 <= a < b < c.len() implies (#[trigger] c[a]).0 != (#[trigger] c[b]).0 by {
                    let oa = if a == p { t } else if a == t { p } else { a };
                    let ob = if b == p { t } else if b == t { p } else { b };
                    assert(c[a] == old_cells[oa] && c[b] == old_cells[ob]);
                    if oa < ob {
                        assert(old_cells[oa].0 != old_cells[ob].0);
                    } else {
                        assert(old_cells[ob].0 != old_cells[oa].0);
                    }
                }
                assert forall|a: int| 0 <= a < c.len() implies (#[trigger] c[a]).0.0 < self.next_cell_id by {
                    let oa = if a == p { t } else if a == t { p } else { a };
                    assert(c[a] == old_cells[oa]);
                }
            }
        }
        if moved {
            self.mark_dirty(&mut effects);
            assert(effects_view(Seq::<NotebookEffect>::empty()) + dirtied_effects(old(self).dirty) =~= dirtied_effects(old(self).dirty));
        }
        effects
    }

    /// Converts the cell with id `id` to `kind`, keeping its source; saved
    /// outputs stay only when the new kind is code. The cell is rebuilt, so
    /// it gets the next id; the notebook is marked dirty. An unknown id (or
    /// raw text) changes nothing.
    pub fn convert_cell(&mut self, id: CellId, kind: CellKind) -> (effects: Vec<NotebookEffect>)
        requires
            old(self).wf(),
            old(self).next_cell_id < u64::MAX,
        ensures
            final(self).wf(),
            is_raw(final(self).state) == is_raw(old(self).state),
            match cell_index(old(self).cells(), id) {
                Some(i) => {
                    &&& final(self).cells() == old(self).cells().update(i, (
                        CellId(old(self).next_cell_id),
                        kind,
                        old(self).cells()[i].2,
                        converted_outputs(kind, old(self).cells()[i].3),
                    ))
                    &&& final(self).next_cell_id == old(self).next_cell_id + 1
                    &&& final(self).dirty
                    &&& effects_view(effects@) == dirtied_effects(old(self).dirty)
                },
                None => {
                    &&& final(self).cells() == old(self).cells()
                    &&& final(self).next_cell_id == old(self).next_cell_id
                    &&& final(self).dirty == old(self).dirty
                    &&& effects@.len() == 0
                },
            },
    {
        let mut effects: Vec<NotebookEffect> = Vec::new();
        let ghost old_cells = self.cells();
        let new_id = CellId(self.next_cell_id);
        let mut converted = false;
        proof {
            lemma_cell_index_bounds(old_cells, Some(id));
        }
        if let NotebookState::Notebook { cells } = &mut self.state {
            if let Some(i) = NotebookCells::find(cells, id) {
                let ghost before = cells@;
                let old_cell = cells.remove(i);
                let NotebookCell { id: _, kind: _, source, outputs } = old_cell;
                let kept = match kind {
                    CellKind::Code => outputs,
                    _ => Vec::new(),
                };
                cells.insert(i, NotebookCell { id: new_id, kind, source, outputs: kept });
                assert(cells_view(cells@) =~= cells_view(before).update(i as int, (
                    new_id,
                    kind,
                    cells_view(before)[i as int].2,
                    converted_outputs(kind, cells_view(before)[i as int].3),
                )));
                converted = true;
            }
        }
        if converted {
            self.next_cell_id = self.next_cell_id + 1;
            proof {
                let c = self.cells();
                let p = cell_index(old_cells, id)->0;
                assert forall|a: int, b: int| 0 <= a < b < c.len() implies (#[trigger] c[a]).0 != (#[trigger] c[b]).0 by {
                    if a != p && b != p {
                        assert(c[a] == old_cells[a] && c[b] == old_cells[b]);
                    } else if a == p {
                        assert(c[b] == old_cells[b]);
                    } else {
                        assert(c[a] == old_cells[a]);
                    }
                }
                assert forall|a: int| 0 <= a < c.len() implies (#[trigger] c[a]).0.0 < self.next_cell_id by {
                    if a != p {
                        assert(c[a] == old_cells[a]);
                    }
                }
            }
            self.mark_dirty(&mut effects);
            assert(effects_view(Seq::<NotebookEffect>::empty()) + dirtied_effects(old(self).dirty) =~= dirtied_effects(old(self).dirty));
        }
        effects
    }

    /// Writes an edited `source` into the cell with id `id` only, marking the
    /// notebook dirty; the cell's id, kind and saved outputs stay as they
    /// were. An unknown id changes nothing.
    pub fn sync_cell_source(&mut self, id: CellId, source: String) -> (effects: Vec<NotebookEffect>)
        requires
            old(self).wf(),
        ensures
            final(self).wf(),
            final(self).next_cell_id == old(self).next_cell_id,
            is_raw(final(self).state) == is_raw(old(self).state),
            match cell_index(old(self).cells(), id) {
                Some(i) => {
                    &&& final(self).cells() == old(self).cells().update(i, (
                        old(self).cells()[i].0,
                        old(self).cells()[i].1,
                        source@,
                        old(self).cells()[i].3,
                    ))
                    &&& final(self).dirty
                    &&& effects_view(effects@) == dirtied_effects(old(self).dirty)
                },
                None => {
                    &&& final(self).cells() == old(self).cells()
                    &&& final(self).dirty == old(self).dirty
                    &&& effects@.len() == 0
                },
            },
    {
        let mut effects: Vec<NotebookEffect> = Vec::new();
        let ghost old_cells = self.cells();
        let mut updated = false;
        proof {
            lemma_cell_index_bounds(old_cells, Some(id));
        }
        if let NotebookState::Notebook { cells } = &mut self.state {
            if let Some(i) = NotebookCells::find(cells, id) {
                let ghost before = cells@;
                let ghost new_source = source@;
                let old_cell = cells.remove(i);
                let NotebookCell { id: cell_id, kind: cell_kind, source: _, outputs } = old_cell;
                cells.insert(i, NotebookCell { id: cell_id, kind: cell_kind, source, outputs });
                assert(cells_view(cells@) =~= cells_view(before).update(i as int, (
                    cell_id,
                    cell_kind,
                    new_source,
                    cells_view(before)[i as int].3,
                )));
                updated = true;
            }
        }
        proof {
            if updated {
                let c = self.cells();
                let p = cell_index(old_cells, id)->0;
                assert forall|a: int, b: int| 0 <= a < b < c.len() implies (#[trigger] c[a]).0 != (#[trigger] c[b]).0 by {
                    assert(c[a].0 == old_cells[a].0 && c[b].0 == old_cells[b].0);
                }
                assert forall|a: int| 0 <= a < c.len() implies (#[trigger] c[a]).0.0 < self.next_cell_id by {
                    assert(c[a].0 == old_cells[a].0);
                }
            }
        }
        if updated {
            self.mark_dirty(&mut effects);
            assert(effects_view(Seq::<NotebookEffect>::empty()) + dirtied_effects(old(self).dirty) =~= dirtied_effects(old(self).dirty));
        }
        effects
    }

    /// Handles a notebook action: focus, close, save and maximize become
    /// effects for the host; the structural actions change the cells.
    pub fn handle_action(&mut self, action: &JupyterNotebookAction) -> (effects: Vec<NotebookEffect>)
        requires
            old(self).wf(),
            old(self).next_cell_id < u64::MAX,
        ensures
            final(self).wf(),
            match *action {
                JupyterNotebookAction::Focus => *final(self) == *old(self)
                    && effects_view(effects@) == seq![EffectView::FocusSelf],
                JupyterNotebookAction::Close => *final(self) == *old(self)
                    && effects_view(effects@) == seq![EffectView::Emit(EventView::Pane(PaneEvent::Close))],
                JupyterNotebookAction::Save => *final(self) == *old(self)
                    && effects_view(effects@) == seq![EffectView::RequestSave],
                JupyterNotebookAction::ToggleMaximized => *final(self) == *old(self)
                    && effects_view(effects@) == seq![
                        EffectView::Emit(EventView::Pane(PaneEvent::ToggleMaximized)),
                        EffectView::RefreshOverflowMenu,
                    ],
                _ => true,
            },
    {
        let mut effects: Vec<NotebookEffect> = Vec::new();
        match action {
            JupyterNotebookAction::Focus => {
                effects.push(NotebookEffect::FocusSelf);
                assert(effects_view(effects@) =~= seq![EffectView::FocusSelf]);
            },
            JupyterNotebookAction::Close => {
                effects.push(NotebookEffect::Emit(JupyterNotebookEvent::Pane(PaneEvent::Close)));
                assert(effects_view(effects@) =~= seq![EffectView::Emit(EventView::Pane(PaneEvent::Close))]);
            },
            JupyterNotebookAction::Save => {
                effects.push(NotebookEffect::RequestSave);
                assert(effects_view(effects@) =~= seq![EffectView::RequestSave]);
            },
            JupyterNotebookAction::ToggleMaximized => {
                effects.push(NotebookEffect::Emit(JupyterNotebookEvent::Pane(PaneEvent::ToggleMaximized)));
                effects.push(NotebookEffect::RefreshOverflowMenu);
                assert(effects_view(effects@) =~= seq![
                    EffectView::Emit(EventView::Pane(PaneEvent::ToggleMaximized)),
                    EffectView::RefreshOverflowMenu,
                ]);
            },
            JupyterNotebookAction::InsertCell { anchor, position, kind } => {
                effects = self.insert_cell(*anchor, *position, *kind);
            },
            JupyterNotebookAction::DeleteCell(id) => {
                effects = self.delete_cell(*id);
            },
            JupyterNotebookAction::MoveCellUp(id) => {
                effects = self.move_cell(*id, false);
            },
            JupyterNotebookAction::MoveCellDown(id) => {
                effects = self.move_cell(*id, true);
            },
            JupyterNotebookAction::ConvertCell { id, kind } => {
                effects = self.convert_cell(*id, *kind);
            },
        }
        effects
    }

    /// Replaces the content after a reload from disk: the parsed cells get
    /// fresh ids, the dirty flag is cleared, and a file that is not a
    /// notebook asks the host to open `content` as plain text.
    pub fn set_content(&mut self, parsed: Option<Vec<(CellKind, String, Vec<JsonValue>)>>, content: String) -> (effects: Vec<NotebookEffect>)
        requires
            match parsed {
                Some(cells) => old(self).next_cell_id + cells@.len() <= u64::MAX,
                None => true,
            },
        ensures
            final(self).wf(),
            !final(self).dirty,
            match parsed {
                Some(cells) => {
                    &&& !is_raw(final(self).state)
                    &&& final(self).cells().len() == cells@.len()
                    &&& final(self).next_cell_id == old(self).next_cell_id + cells@.len()
                    &&& forall|i: int| 0 <= i < cells@.len() ==> (#[trigger] final(self).cells()[i]) == (
                        CellId((old(self).next_cell_id + i) as u64),
                        cells@[i].0,
                        cells@[i].1@,
                        cells@[i].2@,
                    )
                    &&& effects@.len() == 0
                },
                None => {
                    &&& final(self).state == NotebookState::Raw { text: content }
                    &&& final(self).next_cell_id == old(self).next_cell_id
                    &&& effects_view(effects@) == seq![EffectView::Emit(EventView::RawRequested(content@))]
                },
            },
    {
        let is_notebook = parsed.is_some();
        let raw_copy = content.clone();
        *self = NotebookCells::new(parsed, content, self.next_cell_id);
        let mut effects: Vec<NotebookEffect> = Vec::new();
        if !is_notebook {
            effects.push(NotebookEffect::Emit(JupyterNotebookEvent::RawRequested { json: raw_copy }));
            assert(effects_view(effects@) =~= seq![EffectView::Emit(EventView::RawRequested(content@))]);
        }
        effects
    }

    /// The id of the cell at `index`.
    pub fn cell_id_at(&self, index: usize) -> (id: Option<CellId>)
        ensures
            id == (if index < self.cells().len() { Some(self.cells()[index as int].0) } else { None }),
    {
        match &self.state {
            NotebookState::Notebook { cells } => {
                if index < cells.len() {
                    Some(cells[index].id)
                } else {
                    None
                }
            },
            NotebookState::Raw { .. } => None,
        }
    }

    /// The number of cells (none for raw text).
    pub fn cell_count(&self) -> (count: usize)
        ensures
            count == self.cells().len(),
    {
        match &self.state {
            NotebookState::Notebook { cells } => cells.len(),
            NotebookState::Raw { .. } => 0,
        }
    }

    /// The kind of the cell at `index`.
    pub fn cell_kind(&self, index: usize) -> (kind: Option<CellKind>)
        ensures
            kind == (if index < self.cells().len() { Some(self.cells()[index as int].1) } else { None }),
    {
        match &self.state {
            NotebookState::Notebook { cells } => {
                if index < cells.len() {
                    Some(cells[index].kind)
                } else {
                    None
                }
            },
            NotebookState::Raw { .. } => None,
        }
    }

    /// The number of read-only output items shown under the cell at `index`:
    /// the classified saved outputs of a code cell, none for any other kind
    /// or an index past the end.
    pub fn output_count(&self, index: usize) -> (count: usize)
        ensures
            count == (if index < self.cells().len() { shown_output_count(self.cells()[index as int]) } else { 0 }),
    {
        match &self.state {
            NotebookState::Notebook { cells } => {
                if index < cells.len() {
                    match cells[index].kind {
                        CellKind::Code => {
                            let items = classify_outputs(cells[index].outputs.as_slice());
                            items.len()
                        },
                        _ => 0,
                    }
                } else {
                    0
                }
            },
            NotebookState::Raw { .. } => 0,
        }
    }
}

proof fn lemma_cell_index(cells: Seq<CellView>, id: CellId, i: int)
    requires
        0 <= i < cells.len(),
        cells[i].0 == id,
        forall|k: int| 0 <= k < i ==> (#[trigger] cells[k]).0 != id,
    ensures
        cell_index(cells, id) == Some(i),
    decreases cells.len(),
{
    if i < cells.len() - 1 {
        lemma_cell_index(cells.drop_last(), id, i);
    } else {
        lemma_no_cell_index(cells.drop_last(), id);
    }
}

proof fn lemma_no_cell_index(cells: Seq<CellView>, id: CellId)
    requires
        forall|k: int| 0 <= k < cells.len() ==> (#[trigger] cells[k]).0 != id,
    ensures
        cell_index(cells, id) is None,
    decreases cells.len(),
{
    if cells.len() > 0 {
        lemma_no_cell_index(cells.drop_last(), id);
    }
}

proof fn lemma_cell_index_bounds(cells: Seq<CellView>, anchor: Option<CellId>)
    ensures
        match anchor {
            Some(a) => match cell_index(cells, a) {
                Some(i) => 0 <= i < cells.len() && cells[i].0 == a,
                None => true,
            },
            None => true,
        },
    decreases cells.len(),
{
    if cells.len() > 0 {
        lemma_cell_index_bounds(cells.drop_last(), anchor);
    }
}

/// Moving a cell down and then up again restores the cells.
pub proof fn lemma_move_down_then_up_restores(cells: Seq<CellView>, id: CellId)
    requires
        forall|i: int, j: int| 0 <= i < j < cells.len() ==> (#[trigger] cells[i]).0 != (#[trigger] cells[j]).0,
        move_positions(cells, id, true) is Some,
    ensures
        cells_after_move(cells_after_move(cells, id, true), id, false) == cells,
{
    lemma_cell_index_bounds(cells, Some(id));
    let i = cell_index(cells, id)->0;
    let moved = cells_after_move(cells, id, true);
    assert(moved[i + 1].0 == id);
    assert forall|k: int| 0 <= k < i + 1 implies (#[trigger] moved[k]).0 != id by {
        if k == i {
            assert(moved[k] == cells[i + 1]);
            assert(cells[i].0 != cells[i + 1].0);
        } else {
            assert(moved[k] == cells[k]);
            assert(cells[k].0 != cells[i].0);
        }
    }
    lemma_cell_index(moved, id, i + 1);
    assert(cells_after_move(moved, id, false) =~= cells);
}

/// Inserting next to a known anchor puts the new empty cell right beside
/// it: above, the new cell takes the anchor's index and the anchor follows
/// it; below, the anchor keeps its index and the new cell follows it. The
/// cells before keep their places and the cells after move one down.
pub proof fn lemma_insert_beside_anchor(
    cells: Seq<CellView>,
    anchor: CellId,
    i: int,
    position: InsertPosition,
    new_id: CellId,
    kind: CellKind,
)
    requires
        0 <= i < cells.len(),
        cells[i].0 == anchor,
        forall|k: int| 0 <= k < i ==> (#[trigger] cells[k]).0 != anchor,
    ensures
        ({
            let after = cells_after_insert(cells, Some(anchor), position, new_id, kind);
            let at = if position == InsertPosition::Above { i } else { i + 1 };
            &&& after.len() == cells.len() + 1
            &&& after[at] == (new_id, kind, Seq::<char>::empty(), Seq::<JsonValue>::empty())
            &&& position == InsertPosition::Above ==> after[i + 1] == cells[i]
            &&& position == InsertPosition::Below ==> after[i] == cells[i]
            &&& forall|k: int| 0 <= k < at ==> after[k] == cells[k]
            &&& forall|k: int| at < k < after.len() ==> after[k] == cells[k - 1]
        }),
{
    lemma_cell_index(cells, anchor, i);
}

/// Deleting the cell that an insertion just added restores the cells.
pub proof fn lemma_delete_undoes_insert(
    cells: Seq<CellView>,
    anchor: Option<CellId>,
    position: InsertPosition,
    new_id: CellId,
    kind: CellKind,
)
    requires
        forall|i: int| 0 <= i < cells.len() ==> (#[trigger] cells[i]).0 != new_id,
    ensures
        cells_after_delete(cells_after_insert(cells, anchor, position, new_id, kind), new_id) == cells,
{
    lemma_cell_index_bounds(cells, anchor);
    let p = insert_index(cells, anchor, position);
    let inserted = cells_after_insert(cells, anchor, position, new_id, kind);
    assert forall|k: int| 0 <= k < p implies (#[trigger] inserted[k]).0 != new_id by {
        assert(inserted[k] == cells[k]);
    }
    lemma_cell_index(inserted, new_id, p);
    assert(inserted.remove(p) =~= cells);
}

/// The title of a notebook: the file name of its path, the whole path when
/// it has no file name, or "Untitled" without a path.
pub open spec fn notebook_title(path: Option<Seq<char>>) -> Seq<char> {
    match path {
        None => "Untitled"@,
        Some(p) => {
            let parts = path_parts(p);
            if parts.len() > 0 && is_name(parts.last()) {
                parts.last()
            } else {
                p
            }
        },
    }
}

/// The display title of a notebook at `path`.
pub fn title(path: Option<&str>) -> (t: String)
    ensures
        t@ == notebook_title(match path { Some(p) => Some(p@), None => None }),
{
    match path {
        None => "Untitled".to_owned(),
        Some(p) => {
            let parts = path_parts_of(p);
            let n = parts.len();
            if n > 0 && crate::local_control::is_name_exec(&parts[n - 1]) {
                string_from_chars(&parts[n - 1])
            } else {
                p.to_owned()
            }
        },
    }
}

} // verus!

verus! {

/// A version of the file's content as the file model tracks it.
#[derive(Debug, Clone, Copy, PartialEq, Eq, Structural)]
pub struct ContentVersion(pub u64);

/// What the file model reports about the notebook's backing file.
#[derive(Debug, Clone)]
pub enum FileModelEvent {
    FileLoaded { content: String, version: ContentVersion },
    FailedToLoad,
    FileUpdated { content: String, new_version: ContentVersion },
    FileSaved { version: ContentVersion },
    FailedToSave { error: String },
}

/// What the file host tells the notebook view.
#[derive(Debug, Clone)]
pub enum JupyterFileHostEvent {
    /// Fresh content was loaded (first load, or an external change while the
    /// buffer was clean).
    Loaded { content: String },
    LoadFailed,
    Saved,
    SaveFailed { message: String },
    /// The file changed on disk while the buffer had unsaved edits.
    Conflict,
}

/// The file backing of a notebook pane: the content version on disk and in
/// the view, and whether the view has unsaved edits.
#[derive(Debug, Clone, Copy)]
pub struct JupyterFileHost {
    pub version: Option<ContentVersion>,
    pub dirty: bool,
}

impl JupyterFileHost {
    /// A host that has loaded nothing yet.
    pub fn new() -> (host: JupyterFileHost)
        ensures
            host.version is None,
            !host.dirty,
    {
        JupyterFileHost { version: None, dirty: false }
    }

    /// Records that the view has unsaved edits.
    pub fn set_dirty(&mut self)
        ensures
            final(self).dirty,
            final(self).version == old(self).version,
    {
        self.dirty = true;
    }

    /// Reacts to a file event. A load or save adopts the new version and
    /// clears the dirty flag; an external update while the buffer has
    /// unsaved edits is a conflict and changes nothing, otherwise it is
    /// loaded; failures are reported.
    pub fn handle_file_event(&mut self, event: FileModelEvent) -> (reply: JupyterFileHostEvent)
        ensures
            match event {
                FileModelEvent::FileLoaded { content, version } => {
                    &&& final(self).version == Some(version) && !final(self).dirty
                    &&& reply matches JupyterFileHostEvent::Loaded { content: c } && c@ == content@
                },
                FileModelEvent::FailedToLoad => *final(self) == *old(self) && reply is LoadFailed,
                FileModelEvent::FileUpdated { content, new_version } => if old(self).dirty {
                    *final(self) == *old(self) && reply is Conflict
                } else {
                    &&& final(self).version == Some(new_version) && final(self).dirty == old(self).dirty
                    &&& reply matches JupyterFileHostEvent::Loaded { content: c } && c@ == content@
                },
                FileModelEvent::FileSaved { version } => {
                    &&& final(self).version == Some(version) && !final(self).dirty
                    &&& reply is Saved
                },
                FileModelEvent::FailedToSave { error } => {
                    &&& *final(self) == *old(self)
                    &&& reply matches JupyterFileHostEvent::SaveFailed { message } && message@ == error@
                },
            },
    {
        match event {
            FileModelEvent::FileLoaded { content, version } => {
                self.version = Some(version);
                self.dirty = false;
                JupyterFileHostEvent::Loaded { content }
            },
            FileModelEvent::FailedToLoad => JupyterFileHostEvent::LoadFailed,
            FileModelEvent::FileUpdated { content, new_version } => {
                if self.dirty {
                    JupyterFileHostEvent::Conflict
                } else {
                    self.version = Some(new_version);
                    JupyterFileHostEvent::Loaded { content }
                }
            },
            FileModelEvent::FileSaved { version } => {
                self.version = Some(version);
                self.dirty = false;
                JupyterFileHostEvent::Saved
            },
            FileModelEvent::FailedToSave { error } => JupyterFileHostEvent::SaveFailed { message: error },
        }
    }
}

} // verus!
