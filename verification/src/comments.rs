//! Review-comment composition: the comment composer's state machine, and the
//! provider API-keys dialog's submission rule.
use vstd::prelude::*;
use crate::line_location::EditorLineLocation;
use crate::text::{trim, trimmed};

verus! {

/// Identifier of a saved review comment.
#[derive(Clone, Copy, Debug, PartialEq, Eq, Structural, Hash)]
pub struct CommentId(pub u64);

/// Where a saved comment came from.
#[derive(Clone, Copy, Debug, PartialEq, Eq, Structural)]
pub enum CommentOrigin {
    /// Written in this application.
    Local,
    /// Imported from a GitHub pull-request review.
    ImportedFromGitHub,
}

impl CommentOrigin {
    /// Whether the comment was imported from GitHub.
    pub fn is_imported_from_github(&self) -> (imported: bool)
        ensures
            imported == (*self == CommentOrigin::ImportedFromGitHub),
    {
        match self {
            CommentOrigin::Local => false,
            CommentOrigin::ImportedFromGitHub => true,
        }
    }
}

/// Events the comment composer emits to its host.
#[derive(Debug)]
pub enum CommentEditorEvent {
    ContentChanged,
    CommentSaved {
        id: Option<CommentId>,
        comment_text: String,
        line: Option<EditorLineLocation>,
    },
    CloseEditor,
    DeleteComment { id: CommentId },
}

/// Actions of the composer's buttons.
#[derive(Debug)]
pub enum CommentEditorAction {
    SaveComment,
    CloseEditor,
    RemoveComment,
}

/// The label of the composer's primary button.
#[derive(Clone, Copy, Debug, PartialEq, Eq, Structural)]
pub enum SaveButtonLabel {
    /// A new comment is being written.
    Comment,
    /// A saved comment is being edited.
    Update,
}

/// The state of the comment composer: the draft, the comment it edits (if
/// any), the line it is attached to, and the state of its buttons.
pub struct CommentEditor {
    /// Comment being edited, `None` for a new comment.
    pub comment_id: Option<CommentId>,
    /// The line the composer is attached to.
    pub line: Option<EditorLineLocation>,
    /// The draft body, as markdown.
    pub draft: String,
    /// Whether the "Remove" button is shown.
    pub show_remove_button: bool,
    /// Whether the primary button is disabled.
    pub save_button_disabled: bool,
    /// The primary button's label.
    pub save_button_label: SaveButtonLabel,
    /// Whether the edited comment was imported from GitHub.
    pub is_imported_comment: bool,
}

/// The plain value of a composer event.
pub enum CommentEventView {
    ContentChanged,
    CommentSaved { id: Option<CommentId>, comment_text: Seq<char>, line: Option<EditorLineLocation> },
    CloseEditor,
    DeleteComment { id: CommentId },
}

impl View for CommentEditorEvent {
    type V = CommentEventView;

    open spec fn view(&self) -> CommentEventView {
        match self {
            CommentEditorEvent::ContentChanged => CommentEventView::ContentChanged,
            CommentEditorEvent::CommentSaved { id, comment_text, line } => CommentEventView::CommentSaved {
                id: *id,
                comment_text: comment_text@,
                line: *line,
            },
            CommentEditorEvent::CloseEditor => CommentEventView::CloseEditor,
            CommentEditorEvent::DeleteComment { id } => CommentEventView::DeleteComment { id: *id },
        }
    }
}

/// The plain values of a sequence of composer events.
pub open spec fn comment_event_views(events: Seq<CommentEditorEvent>) -> Seq<CommentEventView> {
    events.map_values(|e: CommentEditorEvent| e@)
}

impl CommentEditor {
    /// The buttons agree with the draft and the edited comment: the primary
    /// button is disabled exactly when the draft is empty, and "Remove",
    /// "Update" and the GitHub marker appear only for a saved comment.
    pub open spec fn wf(&self) -> bool {
        &&& self.save_button_disabled == (self.draft@.len() == 0)
        &&& self.show_remove_button == (self.comment_id is Some)
        &&& self.save_button_label == (if self.comment_id is Some {
            SaveButtonLabel::Update
        } else {
            SaveButtonLabel::Comment
        })
        &&& (self.comment_id is None ==> !self.is_imported_comment)
    }

    /// The composer's buttons and identity when it is cleared: no comment, no
    /// line, Comment label, Remove hidden.
    pub open spec fn is_cleared(&self) -> bool {
        &&& self.comment_id is None
        &&& self.line is None
        &&& !self.show_remove_button
        &&& !self.is_imported_comment
        &&& self.save_button_label == SaveButtonLabel::Comment
    }

    /// An empty composer for a new comment.
    pub fn new() -> (editor: CommentEditor)
        ensures
            editor.wf(),
            editor.is_cleared(),
            editor.draft@.len() == 0,
    {
        CommentEditor {
            comment_id: None,
            line: None,
            draft: String::new(),
            show_remove_button: false,
            save_button_disabled: true,
            save_button_label: SaveButtonLabel::Comment,
            is_imported_comment: false,
        }
    }

    /// The draft body.
    pub fn comment_text(&self) -> (text: String)
        ensures
            text@ == self.draft@,
    {
        self.draft.clone()
    }

    /// Replaces the draft body (the user edited it) and reports the change.
    pub fn set_draft(&mut self, text: String) -> (event: CommentEditorEvent)
        requires
            old(self).wf(),
        ensures
            final(self).wf(),
            final(self).draft@ == text@,
            final(self).comment_id == old(self).comment_id,
            final(self).line == old(self).line,
            final(self).is_imported_comment == old(self).is_imported_comment,
            event@ == CommentEventView::ContentChanged,
    {
        self.save_button_disabled = text.as_str().is_empty();
        self.draft = text;
        CommentEditorEvent::ContentChanged
    }

    /// Opens the composer for a new comment on `line`, clearing the draft.
    pub fn attach_to_line(&mut self, line: EditorLineLocation)
        ensures
            final(self).wf(),
            final(self).draft@.len() == 0,
            final(self).comment_id is None,
            final(self).line == Some(line),
            !final(self).show_remove_button,
            !final(self).is_imported_comment,
            final(self).save_button_label == SaveButtonLabel::Comment,
    {
        self.draft = String::new();
        self.comment_id = None;
        self.line = Some(line);
        self.show_remove_button = false;
        self.is_imported_comment = false;
        self.save_button_label = SaveButtonLabel::Comment;
        self.save_button_disabled = true;
    }

    /// Opens the composer on a saved comment, with its text as the draft.
    pub fn reopen_saved_comment(
        &mut self,
        id: CommentId,
        line: Option<EditorLineLocation>,
        comment_text: &str,
        origin: CommentOrigin,
    )
        ensures
            final(self).wf(),
            final(self).draft@ == comment_text@,
            final(self).comment_id == Some(id),
            final(self).line == line,
            final(self).show_remove_button,
            final(self).is_imported_comment == (origin == CommentOrigin::ImportedFromGitHub),
            final(self).save_button_label == SaveButtonLabel::Update,
    {
        self.draft = comment_text.to_owned();
        self.comment_id = Some(id);
        self.line = line;
        self.show_remove_button = true;
        self.is_imported_comment = origin.is_imported_from_github();
        self.save_button_label = SaveButtonLabel::Update;
        self.save_button_disabled = comment_text.is_empty();
    }

    /// Clears the composer: empty draft, no comment, no line.
    pub fn reset(&mut self)
        ensures
            final(self).wf(),
            final(self).is_cleared(),
            final(self).draft@.len() == 0,
    {
        self.draft = String::new();
        self.comment_id = None;
        self.line = None;
        self.show_remove_button = false;
        self.is_imported_comment = false;
        self.save_button_label = SaveButtonLabel::Comment;
        self.save_button_disabled = true;
    }

    /// Saves the draft: a draft that is blank once trimmed is ignored;
    /// otherwise the comment (its untrimmed text, id and line) is reported as
    /// saved and the composer asks to close.
    pub fn save_comment(&self) -> (events: Vec<CommentEditorEvent>)
        ensures
            trimmed(self.draft@).len() == 0 ==> events@.len() == 0,
            trimmed(self.draft@).len() != 0 ==> comment_event_views(events@) == seq![
                CommentEventView::CommentSaved {
                    id: self.comment_id,
                    comment_text: self.draft@,
                    line: self.line,
                },
                CommentEventView::CloseEditor,
            ],
    {
        let mut events: Vec<CommentEditorEvent> = Vec::new();
        let t = trim(self.draft.as_str());
        if t.as_str().is_empty() {
            return events;
        }
        events.push(CommentEditorEvent::CommentSaved {
            id: self.comment_id,
            comment_text: self.draft.clone(),
            line: self.line,
        });
        events.push(CommentEditorEvent::CloseEditor);
        assert(comment_event_views(events@) =~= seq![
            CommentEventView::CommentSaved {
                id: self.comment_id,
                comment_text: self.draft@,
                line: self.line,
            },
            CommentEventView::CloseEditor,
        ]);
        events
    }

    /// Escape: an empty draft clears the composer and asks to close; a
    /// non-empty draft is kept and nothing happens.
    pub fn handle_escape(&mut self) -> (events: Vec<CommentEditorEvent>)
        requires
            old(self).wf(),
        ensures
            final(self).wf(),
            old(self).draft@.len() == 0 ==> final(self).is_cleared()
                && comment_event_views(events@) == seq![CommentEventView::CloseEditor],
            old(self).draft@.len() != 0 ==> *final(self) == *old(self) && events@.len() == 0,
    {
        let mut events: Vec<CommentEditorEvent> = Vec::new();
        if self.draft.as_str().is_empty() {
            self.reset();
            events.push(CommentEditorEvent::CloseEditor);
            assert(comment_event_views(events@) =~= seq![CommentEventView::CloseEditor]);
        }
        events
    }

    /// Handles a button action. Save saves the draft (see
    /// [`CommentEditor::save_comment`]); Close clears the composer and asks to
    /// close; Remove, on a saved comment, clears the composer, asks to delete
    /// the comment and to close, and does nothing on a new comment.
    pub fn handle_action(&mut self, action: &CommentEditorAction) -> (events: Vec<CommentEditorEvent>)
        requires
            old(self).wf(),
        ensures
            final(self).wf(),
            match action {
                CommentEditorAction::SaveComment => {
                    &&& *final(self) == *old(self)
                    &&& (trimmed(old(self).draft@).len() == 0 ==> events@.len() == 0)
                    &&& (trimmed(old(self).draft@).len() != 0 ==> comment_event_views(events@) == seq![
                        CommentEventView::CommentSaved {
                            id: old(self).comment_id,
                            comment_text: old(self).draft@,
                            line: old(self).line,
                        },
                        CommentEventView::CloseEditor,
                    ])
                },
                CommentEditorAction::CloseEditor => {
                    &&& final(self).is_cleared()
                    &&& final(self).draft@.len() == 0
                    &&& comment_event_views(events@) == seq![CommentEventView::CloseEditor]
                },
                CommentEditorAction::RemoveComment => match old(self).comment_id {
                    Some(id) => {
                        &&& final(self).is_cleared()
                        &&& final(self).draft@.len() == 0
                        &&& comment_event_views(events@) == seq![
                            CommentEventView::DeleteComment { id },
                            CommentEventView::CloseEditor,
                        ]
                    },
                    None => *final(self) == *old(self) && events@.len() == 0,
                },
            },
    {
        match action {
            CommentEditorAction::SaveComment => self.save_comment(),
            CommentEditorAction::CloseEditor => {
                self.reset();
                let mut events: Vec<CommentEditorEvent> = Vec::new();
                events.push(CommentEditorEvent::CloseEditor);
                assert(comment_event_views(events@) =~= seq![CommentEventView::CloseEditor]);
                events
            },
            CommentEditorAction::RemoveComment => {
                let mut events: Vec<CommentEditorEvent> = Vec::new();
                if let Some(id) = self.comment_id {
                    self.reset();
                    events.push(CommentEditorEvent::DeleteComment { id });
                    events.push(CommentEditorEvent::CloseEditor);
                    assert(comment_event_views(events@) =~= seq![
                        CommentEventView::DeleteComment { id },
                        CommentEventView::CloseEditor,
                    ]);
                }
                events
            },
        }
    }
}

// ---------------------------------------------------------------------------
// Provider API keys dialog
// ---------------------------------------------------------------------------

/// Actions of the provider API-keys dialog.
#[derive(Clone, Copy, Debug)]
pub enum ProviderKeysModalAction {
    Save,
    Cancel,
}

/// Events of the provider API-keys dialog.
#[derive(Clone, Debug)]
pub enum ProviderKeysModalEvent {
    Cancelled,
    Save { openai: Option<String>, anthropic: Option<String>, google: Option<String> },
}

/// The key a dialog input submits: its text trimmed, or `None` when that is empty.
pub open spec fn submitted_key(input: Seq<char>) -> Option<Seq<char>> {
    if trimmed(input).len() == 0 {
        None
    } else {
        Some(trimmed(input))
    }
}

/// The plain value of an optional key.
pub open spec fn key_view(key: Option<String>) -> Option<Seq<char>> {
    match key {
        Some(k) => Some(k@),
        None => None,
    }
}

/// The key submitted for one input of the dialog.
pub fn submitted_key_from_input(input: &str) -> (key: Option<String>)
    ensures
        key_view(key) == submitted_key(input@),
{
    let t = trim(input);
    if t.as_str().is_empty() {
        None
    } else {
        Some(t)
    }
}

/// The text held by the three key inputs of the provider API-keys dialog.
pub struct ProviderKeysModalView {
    pub openai_input: String,
    pub anthropic_input: String,
    pub google_input: String,
}

impl ProviderKeysModalView {
    /// A dialog whose inputs start with the given keys (empty when absent).
    pub fn new(openai: Option<String>, anthropic: Option<String>, google: Option<String>) -> (view: Self)
        ensures
            view.openai_input@ == (match openai { Some(k) => k@, None => Seq::<char>::empty() }),
            view.anthropic_input@ == (match anthropic { Some(k) => k@, None => Seq::<char>::empty() }),
            view.google_input@ == (match google { Some(k) => k@, None => Seq::<char>::empty() }),
    {
        ProviderKeysModalView {
            openai_input: match openai { Some(k) => k, None => String::new() },
            anthropic_input: match anthropic { Some(k) => k, None => String::new() },
            google_input: match google { Some(k) => k, None => String::new() },
        }
    }

    /// Handles a dialog action: Cancel reports `Cancelled`; Save reports each
    /// input's trimmed text, `None` for a blank input.
    pub fn handle_action(&self, action: ProviderKeysModalAction) -> (event: ProviderKeysModalEvent)
        ensures
            match action {
                ProviderKeysModalAction::Cancel => event is Cancelled,
                ProviderKeysModalAction::Save => match event {
                    ProviderKeysModalEvent::Save { openai, anthropic, google } => {
                        &&& key_view(openai) == submitted_key(self.openai_input@)
                        &&& key_view(anthropic) == submitted_key(self.anthropic_input@)
                        &&& key_view(google) == submitted_key(self.google_input@)
                    },
                    ProviderKeysModalEvent::Cancelled => false,
                },
            },
    {
        match action {
            ProviderKeysModalAction::Save => ProviderKeysModalEvent::Save {
                openai: submitted_key_from_input(self.openai_input.as_str()),
                anthropic: submitted_key_from_input(self.anthropic_input.as_str()),
                google: submitted_key_from_input(self.google_input.as_str()),
            },
            ProviderKeysModalAction::Cancel => ProviderKeysModalEvent::Cancelled,
        }
    }
}

} // verus!
