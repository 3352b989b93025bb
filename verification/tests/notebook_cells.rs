use warp_app::{
    title, CellKind, ContentVersion, FileModelEvent, InsertPosition, JupyterFileHost,
    JupyterFileHostEvent, JupyterNotebookAction, JupyterNotebookEvent, NotebookCells,
    JsonValue, NotebookEffect, NotebookState, PaneEvent,
};

fn s(text: &str) -> JsonValue {
    JsonValue::String(text.to_owned())
}

fn obj(members: Vec<(&str, JsonValue)>) -> JsonValue {
    JsonValue::Object(members.into_iter().map(|(k, v)| (k.to_owned(), v)).collect())
}

fn member<'a>(value: &'a JsonValue, key: &str) -> Option<&'a JsonValue> {
    match value {
        JsonValue::Object(members) => members.iter().find(|(k, _)| k == key).map(|(_, v)| v),
        _ => None,
    }
}

fn stdout_hello() -> JsonValue {
    obj(vec![
        ("name", s("stdout")),
        ("output_type", s("stream")),
        ("text", JsonValue::Array(vec![s("hello\n")])),
    ])
}

fn simple_notebook() -> NotebookCells {
    NotebookCells::new(
        Some(vec![
            (CellKind::Markdown, "# Title\n\nSome *text*.".to_owned(), vec![]),
            (CellKind::Code, "print('hello')".to_owned(), vec![stdout_hello()]),
        ]),
        String::new(),
        0,
    )
}

fn outputs(view: &NotebookCells, index: usize) -> Option<&Vec<JsonValue>> {
    match &view.state {
        NotebookState::Notebook { cells } => cells.get(index).map(|c| &c.outputs),
        NotebookState::Raw { .. } => None,
    }
}

fn source(view: &NotebookCells, index: usize) -> Option<String> {
    match &view.state {
        NotebookState::Notebook { cells } => cells.get(index).map(|c| c.source.clone()),
        NotebookState::Raw { .. } => None,
    }
}

#[test]
fn unparseable_file_falls_back_to_raw_text() {
    let bad = "{ this is not valid notebook json";
    let view = NotebookCells::new(None, bad.to_owned(), 0);
    assert!(matches!(&view.state, NotebookState::Raw { text } if text == bad));
    assert_eq!(view.cell_count(), 0);
    assert!(!view.is_dirty());
    assert_eq!(view.raw_text().as_deref(), Some(bad));
    assert!(simple_notebook().raw_text().is_none());
}

#[test]
fn editing_markdown_cell_updates_only_that_source() {
    let mut view = simple_notebook();
    let id = view.cell_id_at(0).expect("cell 0");
    let effects = view.sync_cell_source(id, "# Title\n\nSome *text*.Z".to_owned());
    assert!(matches!(effects.as_slice(), [NotebookEffect::Emit(JupyterNotebookEvent::Dirtied)]));
    assert!(view.is_dirty());
    assert!(source(&view, 0).unwrap().contains('Z'));
    assert_eq!(source(&view, 1).as_deref(), Some("print('hello')"));
    // A second edit does not report Dirtied again.
    let effects = view.sync_cell_source(id, "x".to_owned());
    assert!(effects.is_empty());
}

#[test]
fn reload_replaces_content_and_clears_dirty() {
    let mut view = simple_notebook();
    view.handle_action(&JupyterNotebookAction::InsertCell {
        anchor: None,
        position: InsertPosition::Below,
        kind: CellKind::Markdown,
    });
    assert!(view.is_dirty());
    let effects = view.set_content(Some(vec![(CellKind::Code, "x = 1".to_owned(), vec![])]), "{}".to_owned());
    assert!(effects.is_empty());
    assert!(!view.is_dirty());
    assert_eq!(view.cell_count(), 1);
    assert_eq!(view.cell_kind(0), Some(CellKind::Code));

    let effects = view.set_content(None, "not json".to_owned());
    assert!(matches!(effects.as_slice(), [NotebookEffect::Emit(JupyterNotebookEvent::RawRequested { json })] if json == "not json"));
}

#[test]
fn structural_operations_insert_delete_move_convert() {
    let mut view = simple_notebook();
    let first = view.cell_id_at(0);
    view.handle_action(&JupyterNotebookAction::InsertCell {
        anchor: first,
        position: InsertPosition::Above,
        kind: CellKind::Code,
    });
    assert_eq!(view.cell_count(), 3);
    assert_eq!(view.cell_kind(0), Some(CellKind::Code));
    assert!(view.is_dirty());

    view.mark_saved();
    assert!(!view.is_dirty());

    let first = view.cell_id_at(0).expect("first cell id");
    view.handle_action(&JupyterNotebookAction::ConvertCell { id: first, kind: CellKind::Markdown });
    assert_eq!(view.cell_kind(0), Some(CellKind::Markdown));
    assert_ne!(view.cell_id_at(0), Some(first), "a converted cell gets a fresh id");

    let first = view.cell_id_at(0).expect("first cell id");
    view.handle_action(&JupyterNotebookAction::MoveCellDown(first));
    assert_eq!(view.cell_kind(1), Some(CellKind::Markdown));

    let id = view.cell_id_at(1).expect("cell id");
    view.handle_action(&JupyterNotebookAction::DeleteCell(id));
    assert_eq!(view.cell_count(), 2);

    let effects = view.handle_action(&JupyterNotebookAction::Focus);
    assert!(matches!(effects.as_slice(), [NotebookEffect::FocusSelf]));
    let effects = view.handle_action(&JupyterNotebookAction::Close);
    assert!(matches!(effects.as_slice(), [NotebookEffect::Emit(JupyterNotebookEvent::Pane(PaneEvent::Close))]));
}

#[test]
fn insert_position_follows_the_anchor() {
    let mut view = simple_notebook();
    let second = view.cell_id_at(1);
    view.insert_cell(second, InsertPosition::Below, CellKind::Raw);
    assert_eq!(view.cell_kind(2), Some(CellKind::Raw));
    view.insert_cell(None, InsertPosition::Above, CellKind::Code);
    assert_eq!(view.cell_kind(0), Some(CellKind::Code));
    assert_eq!(view.cell_count(), 4);
    // Ids stay unique.
    let ids: Vec<_> = (0..4).map(|i| view.cell_id_at(i).unwrap()).collect();
    for i in 0..4 {
        for j in (i + 1)..4 {
            assert_ne!(ids[i], ids[j]);
        }
    }
}

#[test]
fn moving_down_then_up_restores_order_and_edges_do_nothing() {
    let mut view = simple_notebook();
    let a = view.cell_id_at(0).unwrap();
    let b = view.cell_id_at(1).unwrap();
    view.move_cell(a, true);
    assert_eq!(view.cell_id_at(0), Some(b));
    view.move_cell(a, false);
    assert_eq!(view.cell_id_at(0), Some(a));
    assert_eq!(view.cell_id_at(1), Some(b));
    view.mark_saved();
    assert!(view.move_cell(a, false).is_empty());
    assert!(view.move_cell(b, true).is_empty());
    assert!(!view.is_dirty());
}

#[test]
fn delete_undoes_insert() {
    let mut view = simple_notebook();
    let before: Vec<_> = (0..2).map(|i| view.cell_id_at(i).unwrap()).collect();
    view.insert_cell(view.cell_id_at(0), InsertPosition::Below, CellKind::Code);
    let new_id = view.cell_id_at(1).unwrap();
    view.delete_cell(new_id);
    let after: Vec<_> = (0..view.cell_count()).map(|i| view.cell_id_at(i).unwrap()).collect();
    assert_eq!(before, after);
}

#[test]
fn path_is_exposed_and_titled() {
    assert_eq!(title(Some("/tmp/demo/analysis.ipynb")), "analysis.ipynb");
    assert_eq!(title(None), "Untitled");
    assert_eq!(title(Some("/")), "/");
    assert_eq!(title(Some("notes/")), "notes");
}

#[test]
fn file_host_never_overwrites_unsaved_edits() {
    let mut host = JupyterFileHost::new();
    let reply = host.handle_file_event(FileModelEvent::FileLoaded { content: "a".to_owned(), version: ContentVersion(1) });
    assert!(matches!(reply, JupyterFileHostEvent::Loaded { content } if content == "a"));
    host.set_dirty();
    let reply = host.handle_file_event(FileModelEvent::FileUpdated { content: "b".to_owned(), new_version: ContentVersion(2) });
    assert!(matches!(reply, JupyterFileHostEvent::Conflict));
    assert_eq!(host.version, Some(ContentVersion(1)));
    let reply = host.handle_file_event(FileModelEvent::FileSaved { version: ContentVersion(3) });
    assert!(matches!(reply, JupyterFileHostEvent::Saved));
    assert!(!host.dirty);
    let reply = host.handle_file_event(FileModelEvent::FileUpdated { content: "c".to_owned(), new_version: ContentVersion(4) });
    assert!(matches!(reply, JupyterFileHostEvent::Loaded { content } if content == "c"));
    assert_eq!(host.version, Some(ContentVersion(4)));
}

#[test]
fn code_cell_outputs_render_read_only() {
    let view = simple_notebook();
    // The markdown cell has no outputs; the code cell has its one stream output.
    assert_eq!(view.output_count(0), 0);
    assert_eq!(view.output_count(1), 1);
    assert_eq!(view.output_count(2), 0);
}

#[test]
fn editing_code_cell_updates_only_that_source_and_preserves_outputs() {
    let mut view = simple_notebook();
    let id = view.cell_id_at(1).expect("cell 1 is a code cell");
    view.sync_cell_source(id, "print('world')\nprint('hello')".to_owned());
    assert!(view.is_dirty());
    let edited = source(&view, 1).expect("code cell source");
    assert!(edited.contains("print('world')"), "edited source should be reflected, got: {edited:?}");
    // The markdown cell was not touched.
    assert_eq!(source(&view, 0).as_deref(), Some("# Title\n\nSome *text*."));
    // The saved outputs are kept as they were.
    let kept = outputs(&view, 1).expect("code cell outputs");
    assert_eq!(kept.len(), 1);
    assert!(matches!(member(&kept[0], "output_type"), Some(JsonValue::String(t)) if t == "stream"));
    match member(&kept[0], "text") {
        Some(JsonValue::Array(lines)) => assert!(matches!(&lines[0], JsonValue::String(l) if l == "hello\n")),
        other => panic!("unexpected text member: {other:?}"),
    }
    assert_eq!(view.output_count(1), 1);
}

#[test]
fn converting_a_code_cell_away_from_code_drops_its_outputs() {
    let mut view = simple_notebook();
    let id = view.cell_id_at(1).expect("code cell id");
    view.convert_cell(id, CellKind::Markdown);
    assert_eq!(view.cell_kind(1), Some(CellKind::Markdown));
    assert_eq!(outputs(&view, 1).map(|o| o.len()), Some(0));
    assert_eq!(view.output_count(1), 0);
    assert_eq!(source(&view, 1).as_deref(), Some("print('hello')"));

    let mut view = simple_notebook();
    let id = view.cell_id_at(1).expect("code cell id");
    view.convert_cell(id, CellKind::Code);
    assert_eq!(outputs(&view, 1).map(|o| o.len()), Some(1));
}
