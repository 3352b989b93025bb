//! Locations of editor lines in a diff view and the render slots they map to.
use vstd::prelude::*;

verus! {

/// A count of lines (1-based line numbers are counts too).
#[derive(Clone, Copy, Debug, PartialEq, Eq, Structural)]
pub struct LineCount(pub usize);

impl LineCount {
    /// Wraps a raw line count.
    pub fn from_usize(value: usize) -> (count: LineCount)
        ensures
            count.0 == value,
    {
        LineCount(value)
    }

    /// The raw line count.
    pub fn as_usize(&self) -> (value: usize)
        ensures
            value == self.0,
    {
        self.0
    }
}

impl From<usize> for LineCount {
    fn from(value: usize) -> (count: LineCount) {
        LineCount(value)
    }
}

impl vstd::std_specs::convert::FromSpecImpl<usize> for LineCount {
    open spec fn obeys_from_spec() -> bool {
        true
    }

    open spec fn from_spec(v: usize) -> LineCount {
        LineCount(v)
    }
}

/// A half-open range of lines `[start, end)`.
#[derive(Clone, Copy, Debug, PartialEq, Eq, Structural)]
pub struct LineRange {
    pub start: LineCount,
    pub end: LineCount,
}

/// Where a line lives in a diff-aware editor: either a line of the current
/// buffer, or a removed line that is rendered in a temporary slot above
/// `line_number`, at position `index` within its hunk.
#[derive(Clone, Copy, Debug)]
pub enum EditorLineLocation {
    Current { line_number: LineCount, line_range: LineRange },
    Removed { line_number: LineCount, line_range: LineRange, index: usize },
}

/// The render slot a line occupies.
#[derive(Clone, Copy, Debug, PartialEq, Eq, Structural)]
pub enum RenderLineLocation {
    Current(LineCount),
    Temporary { at_line: LineCount, index_from_at_line: usize },
}

/// The render slot of a location: current lines keep their line number,
/// removed lines go to the temporary slot indexed by their hunk position.
pub open spec fn render_slot(location: EditorLineLocation) -> RenderLineLocation {
    match location {
        EditorLineLocation::Current { line_number, .. } => RenderLineLocation::Current(line_number),
        EditorLineLocation::Removed { line_number, index, .. } => RenderLineLocation::Temporary {
            at_line: line_number,
            index_from_at_line: index,
        },
    }
}

/// Two locations denote the same line when they are of the same kind, have
/// the same line number and, for removed lines, the same hunk index.
pub open spec fn same_line(a: EditorLineLocation, b: EditorLineLocation) -> bool {
    match (a, b) {
        (
            EditorLineLocation::Current { line_number: la, .. },
            EditorLineLocation::Current { line_number: lb, .. },
        ) => la == lb,
        (
            EditorLineLocation::Removed { line_number: la, index: ia, .. },
            EditorLineLocation::Removed { line_number: lb, index: ib, .. },
        ) => la == lb && ia == ib,
        _ => false,
    }
}

impl EditorLineLocation {
    /// The line number this location is anchored at.
    pub fn line_number(&self) -> (line: LineCount)
        ensures
            line == match *self {
                EditorLineLocation::Current { line_number, .. } => line_number,
                EditorLineLocation::Removed { line_number, .. } => line_number,
            },
    {
        match self {
            EditorLineLocation::Current { line_number, .. } => *line_number,
            EditorLineLocation::Removed { line_number, .. } => *line_number,
        }
    }

    /// Maps the location to the render slot that displays it.
    pub fn into_render_line_location(self) -> (slot: RenderLineLocation)
        ensures
            slot == render_slot(self),
    {
        match self {
            EditorLineLocation::Current { line_number, .. } => RenderLineLocation::Current(line_number),
            EditorLineLocation::Removed { line_number, index, .. } => RenderLineLocation::Temporary {
                at_line: line_number,
                index_from_at_line: index,
            },
        }
    }

    /// Whether two locations denote the same line.
    pub fn is_same_line(&self, other: &EditorLineLocation) -> (same: bool)
        ensures
            same == same_line(*self, *other),
    {
        match (self, other) {
            (
                EditorLineLocation::Current { line_number: a, .. },
                EditorLineLocation::Current { line_number: b, .. },
            ) => a.0 == b.0,
            (
                EditorLineLocation::Removed { line_number: a, index: ia, .. },
                EditorLineLocation::Removed { line_number: b, index: ib, .. },
            ) => a.0 == b.0 && *ia == *ib,
            _ => false,
        }
    }
}

/// Two locations are the same line exactly when they map to the same render slot.
pub proof fn lemma_same_line_iff_same_slot(a: EditorLineLocation, b: EditorLineLocation)
    ensures
        same_line(a, b) <==> render_slot(a) == render_slot(b),
{
}

} // verus!
