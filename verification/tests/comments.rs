use warp_app::{
    submitted_key_from_input, trim, CommentEditor, CommentEditorAction, CommentEditorEvent,
    CommentId, CommentOrigin, EditorLineLocation, LineCount, LineRange, ProviderKeysModalAction,
    ProviderKeysModalEvent, ProviderKeysModalView, SaveButtonLabel,
};

fn line(n: usize) -> EditorLineLocation {
    EditorLineLocation::Current {
        line_number: LineCount(n),
        line_range: LineRange { start: LineCount(n), end: LineCount(n + 1) },
    }
}

#[test]
fn trim_removes_unicode_white_space_at_both_ends() {
    assert_eq!(trim("  a b \n"), "a b");
    assert_eq!(trim("\u{3000}x\u{a0}"), "x");
    assert_eq!(trim(" \t "), "");
    assert_eq!(trim("x"), "x");
}

#[test]
fn new_composer_is_empty_with_disabled_save() {
    let editor = CommentEditor::new();
    assert!(editor.save_button_disabled);
    assert_eq!(editor.save_button_label, SaveButtonLabel::Comment);
    assert!(!editor.show_remove_button);
    assert!(editor.save_comment().is_empty());
}

#[test]
fn saving_reports_the_comment_and_closes() {
    let mut editor = CommentEditor::new();
    editor.attach_to_line(line(4));
    assert!(matches!(editor.set_draft("  looks good ".to_owned()), CommentEditorEvent::ContentChanged));
    assert!(!editor.save_button_disabled);
    let events = editor.handle_action(&CommentEditorAction::SaveComment);
    assert_eq!(events.len(), 2);
    match &events[0] {
        CommentEditorEvent::CommentSaved { id, comment_text, line: l } => {
            assert_eq!(*id, None);
            assert_eq!(comment_text, "  looks good ");
            assert!(l.unwrap().is_same_line(&line(4)));
        }
        other => panic!("unexpected {other:?}"),
    }
    assert!(matches!(events[1], CommentEditorEvent::CloseEditor));
}

#[test]
fn blank_drafts_are_not_saved_and_escape_keeps_drafts() {
    let mut editor = CommentEditor::new();
    editor.set_draft(" \n ".to_owned());
    assert!(editor.handle_action(&CommentEditorAction::SaveComment).is_empty());
    assert!(editor.handle_escape().is_empty(), "a non-empty draft is kept");
    assert_eq!(editor.comment_text(), " \n ");
    editor.set_draft(String::new());
    let events = editor.handle_escape();
    assert!(matches!(events.as_slice(), [CommentEditorEvent::CloseEditor]));
}

#[test]
fn reopened_comment_can_be_updated_or_removed() {
    let mut editor = CommentEditor::new();
    editor.reopen_saved_comment(CommentId(5), Some(line(2)), "old text", CommentOrigin::ImportedFromGitHub);
    assert_eq!(editor.save_button_label, SaveButtonLabel::Update);
    assert!(editor.show_remove_button);
    assert!(editor.is_imported_comment);
    assert_eq!(editor.comment_text(), "old text");
    let events = editor.handle_action(&CommentEditorAction::RemoveComment);
    assert!(matches!(events.as_slice(), [CommentEditorEvent::DeleteComment { id: CommentId(5) }, CommentEditorEvent::CloseEditor]));
    assert!(editor.comment_id.is_none());
    assert!(editor.handle_action(&CommentEditorAction::RemoveComment).is_empty());
    let events = editor.handle_action(&CommentEditorAction::CloseEditor);
    assert!(matches!(events.as_slice(), [CommentEditorEvent::CloseEditor]));
}

#[test]
fn provider_keys_are_trimmed_and_blank_ones_dropped() {
    assert_eq!(submitted_key_from_input("  sk-1  "), Some("sk-1".to_owned()));
    assert_eq!(submitted_key_from_input("   "), None);
    let view = ProviderKeysModalView::new(Some(" sk-a ".to_owned()), None, Some("AIza".to_owned()));
    match view.handle_action(ProviderKeysModalAction::Save) {
        ProviderKeysModalEvent::Save { openai, anthropic, google } => {
            assert_eq!(openai.as_deref(), Some("sk-a"));
            assert_eq!(anthropic, None);
            assert_eq!(google.as_deref(), Some("AIza"));
        }
        other => panic!("unexpected {other:?}"),
    }
    assert!(matches!(view.handle_action(ProviderKeysModalAction::Cancel), ProviderKeysModalEvent::Cancelled));
}
