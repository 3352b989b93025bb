use warp_app::{EditorLineLocation, LineCount, LineRange, RenderLineLocation};

fn current(line_number: usize) -> EditorLineLocation {
    let line_number = LineCount::from(line_number);
    EditorLineLocation::Current {
        line_number,
        line_range: LineRange { start: line_number, end: LineCount::from(line_number.0 + 1) },
    }
}

fn removed(line_number: usize, index: usize) -> EditorLineLocation {
    let line_number = LineCount::from(line_number);
    EditorLineLocation::Removed {
        line_number,
        line_range: LineRange { start: line_number, end: LineCount::from(line_number.0 + 1) },
        index,
    }
}

#[test]
fn removed_line_maps_to_temporary_render_slot_by_index() {
    assert_eq!(
        removed(12, 2).into_render_line_location(),
        RenderLineLocation::Temporary { at_line: LineCount::from(12), index_from_at_line: 2 }
    );
    assert_eq!(
        removed(12, 0).into_render_line_location(),
        RenderLineLocation::Temporary { at_line: LineCount::from(12), index_from_at_line: 0 }
    );
}

#[test]
fn current_line_maps_to_current_render_slot() {
    assert_eq!(
        current(7).into_render_line_location(),
        RenderLineLocation::Current(LineCount::from(7))
    );
}

#[test]
fn is_same_line_distinguishes_removed_line_slots() {
    assert!(removed(12, 1).is_same_line(&removed(12, 1)));
    assert!(!removed(12, 0).is_same_line(&removed(12, 1)));
    assert!(!removed(12, 1).is_same_line(&removed(13, 1)));
    assert!(!removed(12, 0).is_same_line(&current(12)));
    assert!(current(7).is_same_line(&current(7)));
    assert!(!current(7).is_same_line(&current(8)));
}

#[test]
fn same_line_iff_same_render_slot_on_examples() {
    let samples = [current(3), current(4), removed(3, 0), removed(3, 1), removed(4, 0)];
    for a in samples.iter() {
        for b in samples.iter() {
            assert_eq!(
                a.is_same_line(b),
                a.into_render_line_location() == b.into_render_line_location()
            );
        }
    }
}

#[test]
fn line_number_reports_the_anchor_line() {
    assert_eq!(current(9).line_number(), LineCount::from(9));
    assert_eq!(removed(5, 3).line_number(), LineCount::from(5));
    assert_eq!(LineCount::from_usize(4).as_usize(), 4);
}
