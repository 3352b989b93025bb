//! The code-review panel's observable state: its list of file diffs and
//! their editors, inline comment cards, scroll position, and the git status
//! a repository reports.
use vstd::prelude::*;
use crate::comments::{CommentEditor, CommentId};
use crate::json::str_eq;

verus! {

/// The region of a file item that the code-review list is scrolled to.
#[derive(Debug, Clone, Copy, PartialEq, Eq, Structural)]
pub enum ScrollRegion {
    Header,
    CurrentLine,
    RemovedLine,
    Footer,
}

/// The name of a scroll region as the panel reports it.
pub open spec fn scroll_region_name(region: ScrollRegion) -> Seq<char> {
    match region {
        ScrollRegion::Header => "header"@,
        ScrollRegion::CurrentLine => "current_line"@,
        ScrollRegion::RemovedLine => "removed_line"@,
        ScrollRegion::Footer => "footer"@,
    }
}

impl ScrollRegion {
    /// The name the panel reports for this region.
    pub fn name(&self) -> (name: &'static str)
        ensures
            name@ == scroll_region_name(*self),
    {
        match self {
            ScrollRegion::Header => "header",
            ScrollRegion::CurrentLine => "current_line",
            ScrollRegion::RemovedLine => "removed_line",
            ScrollRegion::Footer => "footer",
        }
    }
}

/// The line at the top of the visible part of the code-review list.
#[derive(Clone, Debug, PartialEq, Eq)]
pub struct CodeReviewVisibleAnchorForTest {
    pub file_path: String,
    pub line_number: usize,
    pub line_text: String,
}

/// A file editor inside the code-review panel, with the saved comments it
/// shows inline as cards.
pub struct CodeEditorView {
    /// The ids of the comments rendered inline, each at most once.
    inline_comments: Vec<CommentId>,
    /// The comments marked in the gutter, as fed.
    comment_locations: Vec<CommentId>,
}

/// Whether `ids` holds `id`.
fn holds_id(ids: &Vec<CommentId>, id: CommentId) -> (found: bool)
    ensures
        found == ids@.contains(id),
{
    let n = ids.len();
    let mut i: usize = 0;
    while i < n
        invariant
            n == ids@.len(),
            i <= n,
            forall|k: int| 0 <= k < i ==> (#[trigger] ids@[k]) != id,
        decreases n - i,
    {
        if ids[i].0 == id.0 {
            assert(ids@[i as int] == id);
            return true;
        }
        i = i + 1;
    }
    false
}

impl CodeEditorView {
    /// No comment is shown twice.
    #[verifier::type_invariant]
    spec fn unique_inline_comments(&self) -> bool {
        self.inline_comments@.no_duplicates()
    }

    /// The ids of the comments shown inline.
    pub closed spec fn inline_ids(&self) -> Seq<CommentId> {
        self.inline_comments@
    }

    /// The comments marked in the gutter.
    pub closed spec fn marked_ids(&self) -> Seq<CommentId> {
        self.comment_locations@
    }

    /// An editor that shows no comment.
    pub fn new() -> (view: CodeEditorView)
        ensures
            view.inline_ids() == Seq::<CommentId>::empty(),
            view.marked_ids() == Seq::<CommentId>::empty(),
    {
        CodeEditorView { inline_comments: Vec::new(), comment_locations: Vec::new() }
    }

    /// Takes the saved comments at `ids`: all of them are marked in the
    /// gutter; with embedded comments enabled the inline cards are
    /// reconciled so that exactly the ids given are shown, each once, in the
    /// order they first come, and otherwise none is shown.
    pub fn set_comment_locations(&mut self, embedded_comments_enabled: bool, ids: &[CommentId])
        ensures
            final(self).marked_ids() == ids@,
            final(self).inline_ids().no_duplicates(),
            forall|c: CommentId| #[trigger] final(self).inline_ids().contains(c) <==> (embedded_comments_enabled && ids@.contains(c)),
            final(self).inline_ids().len() <= ids@.len(),
    {
        let mut shown: Vec<CommentId> = Vec::new();
        let mut marked: Vec<CommentId> = Vec::new();
        let n = ids.len();
        let mut i: usize = 0;
        while i < n
            invariant
                n == ids@.len(),
                i <= n,
                marked@ == ids@.take(i as int),
                shown@.no_duplicates(),
                shown@.len() <= i,
                forall|c: CommentId| #[trigger] shown@.contains(c) <==> (embedded_comments_enabled && ids@.take(i as int).contains(c)),
            decreases n - i,
        {
            let id = ids[i];
            marked.push(id);
            if embedded_comments_enabled {
                let ghost before = shown@;
                proof {
                    assert(ids@.take(i + 1) =~= ids@.take(i as int).push(id));
                }
                if !holds_id(&shown, id) {
                    shown.push(id);
                    proof {
                        assert(shown@ == before.push(id));
                        assert forall|a: int, b: int| 0 <= a < b < shown@.len() implies shown@[a] != shown@[b] by {
                            if b == before.len() {
                                assert(before[a] == shown@[a]);
                            }
                        }
                    }
                }
                proof {
                    broadcast use vstd::seq_lib::lemma_seq_contains_after_push;
                    assert forall|c: CommentId| #[trigger] shown@.contains(c) <==> ids@.take(i + 1).contains(c) by {
                        assert(ids@.take(i + 1).contains(c) <==> (id == c || ids@.take(i as int).contains(c)));
                    }
                }
            } else {
                proof {
                    assert(ids@.take(i + 1) =~= ids@.take(i as int).push(id));
                }
            }
            i = i + 1;
        }
        assert(ids@.take(n as int) =~= ids@);
        self.inline_comments = shown;
        self.comment_locations = marked;
    }

    /// Removes every gutter marker and inline card.
    pub fn clear_comment_locations(&mut self)
        ensures
            final(self).inline_ids() == Seq::<CommentId>::empty(),
            final(self).marked_ids() == Seq::<CommentId>::empty(),
    {
        self.inline_comments = Vec::new();
        self.comment_locations = Vec::new();
    }

    /// The number of comments marked in the gutter.
    pub fn comment_location_count(&self) -> (count: usize)
        ensures
            count == self.marked_ids().len(),
    {
        self.comment_locations.len()
    }

    /// The ids of the comments shown inline, each once.
    pub fn inline_comment_ids_for_test(&self) -> (ids: Vec<CommentId>)
        ensures
            ids@ == self.inline_ids(),
            ids@.no_duplicates(),
    {
        proof {
            use_type_invariant(self);
        }
        let mut ids: Vec<CommentId> = Vec::new();
        let n = self.inline_comments.len();
        let mut i: usize = 0;
        while i < n
            invariant
                n == self.inline_comments@.len(),
                i <= n,
                ids@ == self.inline_comments@.take(i as int),
            decreases n - i,
        {
            ids.push(self.inline_comments[i]);
            assert(self.inline_comments@.take(i + 1) =~= self.inline_comments@.take(i as int).push(self.inline_comments@[i as int]));
            i = i + 1;
        }
        assert(self.inline_comments@.take(n as int) =~= self.inline_comments@);
        ids
    }
}

/// One file of the reviewed diff: its path and, once loaded, its editor.
pub struct FileReviewState {
    pub file_path: String,
    pub editor: Option<CodeEditorView>,
}

/// Whether the panel has loaded the diff.
pub enum CodeReviewViewState {
    Loading,
    Loaded(Vec<FileReviewState>),
}

/// The code-review panel.
pub struct CodeReviewView {
    pub state: CodeReviewViewState,
    /// Index of the file item the list is scrolled to.
    pub scroll_index: usize,
    /// The general (header-anchored) comment composer, when open.
    pub comment_composer: Option<CommentEditor>,
}

/// Index of the first file whose path is `path`.
pub open spec fn first_file_index(files: Seq<FileReviewState>, path: Seq<char>) -> Option<int>
    decreases files.len(),
{
    if files.len() == 0 {
        None
    } else if files.last().file_path@ == path && first_file_index(files.drop_last(), path) is None {
        Some(files.len() - 1)
    } else {
        first_file_index(files.drop_last(), path)
    }
}

impl CodeReviewView {
    /// Whether the diff is loaded and every file has its editor.
    pub open spec fn spec_all_editors_loaded(&self) -> bool {
        match self.state {
            CodeReviewViewState::Loaded(files) => forall|i: int|
                0 <= i < files@.len() ==> (#[trigger] files@[i]).editor is Some,
            CodeReviewViewState::Loading => false,
        }
    }

    /// The list index of the file at `path`, when the diff is loaded.
    pub open spec fn spec_editor_list_index(&self, path: Seq<char>) -> Option<int> {
        match self.state {
            CodeReviewViewState::Loaded(files) => first_file_index(files@, path),
            CodeReviewViewState::Loading => None,
        }
    }

    /// Whether the diff is loaded and the file at `path` has its editor.
    pub open spec fn spec_editor_loaded_at(&self, path: Seq<char>) -> bool {
        match self.spec_editor_list_index(path) {
            Some(i) => match self.state {
                CodeReviewViewState::Loaded(files) => files@[i].editor is Some,
                CodeReviewViewState::Loading => false,
            },
            None => false,
        }
    }

    /// The ids of the comments shown inline in the editor of `path`; empty
    /// when there is no such loaded editor.
    pub open spec fn spec_inline_comment_ids(&self, path: Seq<char>) -> Seq<CommentId> {
        match self.spec_editor_list_index(path) {
            Some(i) => match self.state {
                CodeReviewViewState::Loaded(files) => match files@[i].editor {
                    Some(editor) => editor.inline_ids(),
                    None => Seq::empty(),
                },
                CodeReviewViewState::Loading => Seq::empty(),
            },
            None => Seq::empty(),
        }
    }

    /// Whether every file of the loaded diff has its editor.
    pub fn all_editors_loaded_for_test(&self) -> (loaded: bool)
        ensures
            loaded == self.spec_all_editors_loaded(),
    {
        match &self.state {
            CodeReviewViewState::Loaded(files) => {
                let n = files.len();
                let mut i: usize = 0;
                while i < n
                    invariant
                        n == files@.len(),
                        i <= n,
                        self.state == CodeReviewViewState::Loaded(*files),
                        forall|k: int| 0 <= k < i ==> (#[trigger] files@[k]).editor is Some,
                    decreases n - i,
                {
                    if files[i].editor.is_none() {
                        assert(!(files@[i as int].editor is Some));
                        return false;
                    }
                    i = i + 1;
                }
                true
            },
            CodeReviewViewState::Loading => false,
        }
    }

    /// The index of the file item the list is scrolled to.
    pub fn code_review_scroll_index_for_test(&self) -> (index: usize)
        ensures
            index == self.scroll_index,
    {
        self.scroll_index
    }

    /// The list index of the file at `path`, matched against the diff's file paths.
    pub fn editor_list_index_for_test(&self, path: &str) -> (index: Option<usize>)
        ensures
            match index {
                Some(i) => self.spec_editor_list_index(path@) == Some(i as int),
                None => self.spec_editor_list_index(path@) is None,
            },
    {
        match &self.state {
            CodeReviewViewState::Loaded(files) => {
                let n = files.len();
                let mut i: usize = 0;
                while i < n
                    invariant
                        n == files@.len(),
                        i <= n,
                        self.state == CodeReviewViewState::Loaded(*files),
                        forall|k: int| 0 <= k < i ==> (#[trigger] files@[k]).file_path@ != path@,
                    decreases n - i,
                {
                    if str_eq(files[i].file_path.as_str(), path) {
                        proof {
                            lemma_first_file_index(files@, path@, i as int);
                        }
                        return Some(i);
                    }
                    i = i + 1;
                }
                proof {
                    lemma_no_file_index(files@, path@);
                }
                None
            },
            CodeReviewViewState::Loading => None,
        }
    }

    /// Scrolls the list to the header of the file at `path`: when the diff
    /// is loaded and that file has its editor, the list scrolls to its item
    /// and `true` is returned; otherwise nothing changes and `false` is
    /// returned.
    pub fn scroll_to_header_for_test(&mut self, path: &str) -> (scrolled: bool)
        ensures
            scrolled == old(self).spec_editor_loaded_at(path@),
            scrolled ==> final(self).scroll_index == old(self).spec_editor_list_index(path@)->0,
            !scrolled ==> final(self).scroll_index == old(self).scroll_index,
            final(self).state == old(self).state,
            final(self).comment_composer == old(self).comment_composer,
    {
        match self.editor_list_index_for_test(path) {
            Some(i) => {
                let loaded = match &self.state {
                    CodeReviewViewState::Loaded(files) => {
                        proof {
                            lemma_first_file_index_bounds(files@, path@);
                        }
                        files[i].editor.is_some()
                    },
                    CodeReviewViewState::Loading => false,
                };
                if loaded {
                    self.scroll_index = i;
                }
                loaded
            },
            None => false,
        }
    }

    /// Opens the general (header-anchored) comment composer: an empty one
    /// when none is open; an open one stays as it is.
    pub fn open_general_composer_for_test(&mut self)
        ensures
            final(self).comment_composer is Some,
            old(self).comment_composer is None ==> (final(self).comment_composer matches Some(c)
                && c.wf() && c.is_cleared() && c.draft@.len() == 0),
            old(self).comment_composer is Some ==> final(self).comment_composer == old(self).comment_composer,
            final(self).state == old(self).state,
            final(self).scroll_index == old(self).scroll_index,
    {
        if self.comment_composer.is_none() {
            self.comment_composer = Some(CommentEditor::new());
        }
    }

    /// Closes the general comment composer.
    pub fn close_general_composer(&mut self)
        ensures
            final(self).comment_composer is None,
            final(self).state == old(self).state,
            final(self).scroll_index == old(self).scroll_index,
    {
        self.comment_composer = None;
    }

    /// Whether the general comment composer is open.
    pub fn general_composer_overlay_present_for_test(&self) -> (present: bool)
        ensures
            present == (self.comment_composer is Some),
    {
        self.comment_composer.is_some()
    }

    /// The ids of the comments shown inline in the editor of `path`, each once.
    pub fn inline_comment_ids_for_test(&self, path: &str) -> (ids: Vec<CommentId>)
        ensures
            ids@ == self.spec_inline_comment_ids(path@),
            ids@.no_duplicates(),
    {
        match self.editor_list_index_for_test(path) {
            Some(i) => match &self.state {
                CodeReviewViewState::Loaded(files) => {
                    proof {
                        lemma_first_file_index_bounds(files@, path@);
                    }
                    match &files[i].editor {
                        Some(editor) => editor.inline_comment_ids_for_test(),
                        None => Vec::new(),
                    }
                },
                CodeReviewViewState::Loading => Vec::new(),
            },
            None => Vec::new(),
        }
    }
}

proof fn lemma_first_file_index(files: Seq<FileReviewState>, path: Seq<char>, i: int)
    requires
        0 <= i < files.len(),
        files[i].file_path@ == path,
        forall|k: int| 0 <= k < i ==> (#[trigger] files[k]).file_path@ != path,
    ensures
        first_file_index(files, path) == Some(i),
    decreases files.len(),
{
    if i < files.len() - 1 {
        lemma_first_file_index(files.drop_last(), path, i);
    } else {
        lemma_no_file_index(files.drop_last(), path);
    }
}

proof fn lemma_first_file_index_bounds(files: Seq<FileReviewState>, path: Seq<char>)
    ensures
        match first_file_index(files, path) {
            Some(i) => 0 <= i < files.len() && files[i].file_path@ == path,
            None => true,
        },
    decreases files.len(),
{
    if files.len() > 0 {
        lemma_first_file_index_bounds(files.drop_last(), path);
    }
}

proof fn lemma_no_file_index(files: Seq<FileReviewState>, path: Seq<char>)
    requires
        forall|k: int| 0 <= k < files.len() ==> (#[trigger] files[k]).file_path@ != path,
    ensures
        first_file_index(files, path) is None,
    decreases files.len(),
{
    if files.len() > 0 {
        lemma_no_file_index(files.drop_last(), path);
    }
}

// ---------------------------------------------------------------------------
// Repository status
// ---------------------------------------------------------------------------

/// Line statistics of a diff.
#[derive(Debug, Clone, Copy, PartialEq, Eq, Structural)]
pub struct DiffStats {
    pub files_changed: usize,
    pub total_additions: usize,
    pub total_deletions: usize,
}

/// How far the current branch is from its upstream.
#[derive(Debug, Clone, Copy, PartialEq, Eq, Structural)]
pub struct GitBranchTrackingStatus {
    pub ahead: usize,
    pub behind: usize,
    pub unpushed: usize,
}

/// The git status a repository reports: branch names, diff statistics
/// against `HEAD`, and upstream tracking.
#[derive(Debug, Clone)]
pub struct GitStatusMetadata {
    pub current_branch_name: String,
    pub main_branch_name: String,
    pub stats_against_head: DiffStats,
    pub branch_tracking_status: GitBranchTrackingStatus,
}

impl GitStatusMetadata {
    /// A copy of the status.
    pub fn duplicate(&self) -> (copy: GitStatusMetadata)
        ensures
            copy == *self,
    {
        GitStatusMetadata {
            current_branch_name: self.current_branch_name.clone(),
            main_branch_name: self.main_branch_name.clone(),
            stats_against_head: DiffStats {
                files_changed: self.stats_against_head.files_changed,
                total_additions: self.stats_against_head.total_additions,
                total_deletions: self.stats_against_head.total_deletions,
            },
            branch_tracking_status: self.branch_tracking_status,
        }
    }
}

/// Events of a repository's git status.
#[derive(Debug)]
pub enum GitRepoStatusEvent {
    /// The metadata changed (branch name, diff stats, ...).
    MetadataChanged,
}

/// Events of a repository's GitHub information.
#[derive(Debug, Clone, Copy, PartialEq, Eq, Structural)]
pub enum GitHubRepoEvent {
    PrInfoChanged,
    RepositoryInfoChanged,
}

} // verus!
