//! Verified core logic of the Warp application: editor line locations,
//! review comments, notebook cells and outputs, conversation pruning,
//! bundled skill catalogs and local-control request validation.
mod code_review;
mod comments;
mod conversation_prune;
mod git_status;
mod json;
mod line_location;
pub mod local_control;
mod notebook_cells;
mod notebook_output;
mod remote_repo;
mod remote_skills;
mod skills;
mod text;

pub use code_review::{
    CodeEditorView, CodeReviewView, CodeReviewViewState, CodeReviewVisibleAnchorForTest, DiffStats,
    FileReviewState, GitBranchTrackingStatus, GitHubRepoEvent, GitRepoStatusEvent,
    GitStatusMetadata, ScrollRegion,
};
pub use comments::{
    CommentEditor, CommentEditorAction, CommentEditorEvent, CommentId, CommentOrigin,
    ProviderKeysModalAction, ProviderKeysModalEvent, ProviderKeysModalView, SaveButtonLabel,
    submitted_key_from_input,
};
pub use conversation_prune::{
    select_conversations_to_evict, ConversationRecord, MAX_PERSISTED_CONVERSATION_COUNT,
};
pub use git_status::LocalGitRepoStatusModel;
pub use json::{as_str, get, get_member, str_eq, JsonValue};
pub use line_location::{EditorLineLocation, LineCount, LineRange, RenderLineLocation};
pub use notebook_cells::{
    title, CellId, CellKind, ContentVersion, FileModelEvent, JupyterFileHost,
    JupyterFileHostEvent, InsertPosition, JupyterNotebookAction, JupyterNotebookEvent,
    NotebookCell, NotebookCells, NotebookEffect, NotebookState, PaneEvent,
};
pub use notebook_output::{
    classify_outputs, image_item_from_decoded, strip_ansi, truncate_for_display, OutputItem,
    MAX_IMAGE_BYTES, MAX_TEXT_OUTPUT_BYTES,
};
pub use remote_repo::{
    GitHubRepoEffect, RemoteGitHubRepoModel, RemoteGitRepoStatusModel, RemoteRepoEffect,
    RemoteServerManagerEvent,
};
pub use remote_skills::{
    bundled_skill_snapshot_protos, BundledSkillMetadata, RemoteSkillProto, RemoteSkillSource,
};
pub use skills::{
    activation_for_bundled_skill, build_bundled_skill_context, icon_for_bundled_skill,
    mcp_integration_wire_id, ActivationEnvironment, BundledSkill, BundledSkillActivation,
    BundledSkillDefinition, BundledSkillHost, BundledSkills, FeatureFlag, Icon, McpIntegration,
    ParsedSkill, RemotePath, SkillDescriptor, SkillPathOrigin, SkillReference,
};
pub use text::{sort_strings, str_lt, trim};
