use warp_app::{
    CodeEditorView, CodeReviewView, CodeReviewViewState, CommentEditor, CommentId, FileReviewState,
    ScrollRegion,
};

fn editor_showing(ids: &[CommentId]) -> CodeEditorView {
    let mut editor = CodeEditorView::new();
    editor.set_comment_locations(true, ids);
    editor
}

fn view() -> CodeReviewView {
    CodeReviewView {
        state: CodeReviewViewState::Loaded(vec![
            FileReviewState {
                file_path: "src/a.rs".to_owned(),
                editor: Some(editor_showing(&[CommentId(1), CommentId(3)])),
            },
            FileReviewState { file_path: "src/b.rs".to_owned(), editor: None },
        ]),
        scroll_index: 1,
        comment_composer: None,
    }
}

#[test]
fn review_panel_observations() {
    let mut v = view();
    assert!(!v.all_editors_loaded_for_test());
    assert_eq!(v.code_review_scroll_index_for_test(), 1);
    assert_eq!(v.editor_list_index_for_test("src/b.rs"), Some(1));
    assert_eq!(v.editor_list_index_for_test("src/c.rs"), None);
    assert_eq!(v.inline_comment_ids_for_test("src/a.rs"), vec![CommentId(1), CommentId(3)]);
    assert!(v.inline_comment_ids_for_test("src/b.rs").is_empty());
    assert!(!v.general_composer_overlay_present_for_test());
    v.comment_composer = Some(CommentEditor::new());
    assert!(v.general_composer_overlay_present_for_test());
    if let CodeReviewViewState::Loaded(files) = &mut v.state {
        files[1].editor = Some(CodeEditorView::new());
    }
    assert!(v.all_editors_loaded_for_test());
    let loading = CodeReviewView { state: CodeReviewViewState::Loading, scroll_index: 0, comment_composer: None };
    assert!(!loading.all_editors_loaded_for_test());
    assert_eq!(loading.editor_list_index_for_test("src/a.rs"), None);
}

#[test]
fn scroll_region_names() {
    assert_eq!(ScrollRegion::Header.name(), "header");
    assert_eq!(ScrollRegion::CurrentLine.name(), "current_line");
    assert_eq!(ScrollRegion::RemovedLine.name(), "removed_line");
    assert_eq!(ScrollRegion::Footer.name(), "footer");
}

fn sorted_ids(editor: &CodeEditorView) -> Vec<u64> {
    let mut ids: Vec<u64> = editor.inline_comment_ids_for_test().iter().map(|c| c.0).collect();
    ids.sort();
    ids
}

#[test]
fn test_inline_comment_views_reconcile_create_update_drop() {
    let id_a = CommentId(10);
    let id_b = CommentId(11);
    let mut editor = CodeEditorView::new();
    // Feed [A]: one card for A.
    editor.set_comment_locations(true, &[id_a]);
    assert_eq!(editor.inline_comment_ids_for_test().len(), 1);
    assert_eq!(sorted_ids(&editor), vec![10]);
    // Feed [A, B]: B is added, A kept.
    editor.set_comment_locations(true, &[id_a, id_b]);
    assert_eq!(editor.inline_comment_ids_for_test().len(), 2);
    assert!(editor.inline_comment_ids_for_test().contains(&id_b), "B should be added");
    // Feed [A] again: A still present, B dropped.
    editor.set_comment_locations(true, &[id_a]);
    assert!(editor.inline_comment_ids_for_test().contains(&id_a), "A still present");
    assert_eq!(editor.inline_comment_ids_for_test().len(), 1);
    assert!(
        !editor.inline_comment_ids_for_test().contains(&id_b),
        "B's handle must be dropped when removed from the set"
    );
}

#[test]
fn test_inline_comment_views_not_created_when_flag_off() {
    let mut editor = CodeEditorView::new();
    editor.set_comment_locations(false, &[CommentId(10)]);
    assert_eq!(editor.comment_location_count(), 1, "gutter markers should still be set while the flag is off");
    assert!(
        editor.inline_comment_ids_for_test().is_empty(),
        "no inline comment views should be created while the flag is off"
    );
}

#[test]
fn repeated_ids_are_shown_once_and_clearing_drops_everything() {
    let mut editor = CodeEditorView::new();
    editor.set_comment_locations(true, &[CommentId(2), CommentId(1), CommentId(2)]);
    assert_eq!(editor.inline_comment_ids_for_test(), vec![CommentId(2), CommentId(1)]);
    assert_eq!(editor.comment_location_count(), 3);
    editor.clear_comment_locations();
    assert!(editor.inline_comment_ids_for_test().is_empty());
    assert_eq!(editor.comment_location_count(), 0);
}

#[test]
fn general_composer_opens_once_and_closes() {
    let mut v = view();
    assert!(!v.general_composer_overlay_present_for_test());
    v.open_general_composer_for_test();
    assert!(v.general_composer_overlay_present_for_test());
    if let Some(composer) = &mut v.comment_composer {
        composer.set_draft("draft".to_owned());
    }
    v.open_general_composer_for_test();
    assert_eq!(v.comment_composer.as_ref().map(|c| c.draft.as_str()), Some("draft"));
    v.close_general_composer();
    assert!(!v.general_composer_overlay_present_for_test());
}

#[test]
fn scrolling_to_a_header_moves_the_scroll_index() {
    let mut v = view();
    assert!(v.scroll_to_header_for_test("src/a.rs"));
    assert_eq!(v.code_review_scroll_index_for_test(), 0);
    // A file without its editor, or an unknown path, does not scroll.
    assert!(!v.scroll_to_header_for_test("src/b.rs"));
    assert!(!v.scroll_to_header_for_test("src/c.rs"));
    assert_eq!(v.code_review_scroll_index_for_test(), 0);
    let mut loading = CodeReviewView { state: CodeReviewViewState::Loading, scroll_index: 3, comment_composer: None };
    assert!(!loading.scroll_to_header_for_test("src/a.rs"));
    assert_eq!(loading.code_review_scroll_index_for_test(), 3);
}
