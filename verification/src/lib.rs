//! Archiving git worktrees and restoring them later.
//!
//! A worktree that is archived has its state saved in commits and a record,
//! and is then removed from its projects and from disk. Restoring it brings
//! the state back, and never loses what stands in its way.
//!
//! Each operation is a process that asks its environment for one thing at a
//! time: `pending` is the request, and `step` takes the answer. What holds of
//! every run of a process, whatever the environment answers, is stated beside
//! it or in the modules that end in `_laws`.

pub mod backup;
pub mod backup_laws;
pub mod content;
pub mod content_laws;
pub mod error;
pub mod error_laws;
pub mod model;
pub mod path;
pub mod path_laws;
pub mod persist;
pub mod persist_laws;
pub mod persist_step_laws;
pub mod plan;
pub mod plan_laws;
pub mod progress;
pub mod record;
pub mod record_laws;
pub mod removal;
pub mod removal_laws;
pub mod repository;
pub mod repository_laws;
pub mod restore;
pub mod restore_laws;
pub mod restore_step_laws;
pub mod round_trip;
pub mod text;
pub mod text_laws;
pub mod thread_cleanup;
pub mod thread_cleanup_laws;
pub mod trace;
pub mod view_laws;
pub mod workspace;
pub mod workspace_laws;
