# warp_app

The decision logic of parts of the Warp terminal, written in Verus and
verified against its contracts.

- `src/` — the verified library:
  - `local_control/` — the local-control protocol: request admission,
    permissions, credentials, selector resolution, listings and inspections
    of windows, tabs, panes and sessions, tab and app-state commands, file
    mutation paths, Drive listings, block reads and history.
  - `notebook_cells.rs`, `notebook_output.rs` — Jupyter notebook cell
    editing and output display.
  - `comments.rs`, `code_review.rs`, `line_location.rs`, `git_status.rs`,
    `remote_repo.rs` — code review comments, editor line locations, git
    status and the GitHub info a remote host pushes.
  - `conversation_prune.rs` — tree-aware eviction of stored agent
    conversations.
  - `skills.rs`, `remote_skills.rs` — bundled skill catalogs and the
    snapshot a remote daemon pushes.
  - `json.rs`, `text.rs` — JSON values and character-sequence helpers.
- `app/` — plain Rust around the library: serde JSON, stored rows, notebook
  files, request replies and HTTP headers converted to and from the
  library's values; file writes and deletes and the existence checks the
  library's path decisions ask for.
- `tests/` — tests of the library.
