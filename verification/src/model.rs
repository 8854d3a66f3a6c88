//! The plain values that the archive works on: ids of live objects, archive
//! records, and what the environment answers.
use vstd::prelude::*;

verus! {

/// An open workspace.
#[derive(Clone, Copy, Debug, PartialEq, Eq, Structural)]
pub struct WorkspaceId(pub u64);

/// An open project.
#[derive(Clone, Copy, Debug, PartialEq, Eq, Structural)]
pub struct ProjectId(pub u64);

/// A worktree as one project knows it.
#[derive(Clone, Copy, Debug, PartialEq, Eq, Structural)]
pub struct WorktreeId(pub u64);

/// A live repository handle.
#[derive(Clone, Copy, Debug, PartialEq, Eq, Structural)]
pub struct RepositoryId(pub u64);

/// The options of a connection to a remote machine.
#[derive(Clone, Copy, Debug, PartialEq, Eq, Structural)]
pub struct ConnectionId(pub u64);

/// A conversation thread.
#[derive(Clone, Copy, Debug, PartialEq, Eq, Structural)]
pub struct ThreadId(pub u128);

/// Controls whether a restore proceeds when pre-existing content is found at
/// the worktree path.
#[derive(Clone, Copy, Debug, PartialEq, Eq, Structural)]
pub enum OverwritePolicy {
    /// Fail if the worktree path has content, without doing any destructive
    /// work. Callers use this for a read-only preflight.
    Refuse,
    /// Move pre-existing content to a backup and proceed with the restore.
    Overwrite,
}

/// What the file system says of the entry at a path.
#[derive(Clone, Copy, Debug, PartialEq, Eq, Structural)]
pub struct EntryKind {
    pub is_dir: bool,
    pub is_symlink: bool,
}

/// How a request to a repository's job queue ended.
#[derive(Debug, PartialEq, Eq)]
pub enum Outcome<T, S> {
    /// The job ran and succeeded.
    Done(T),
    /// The job ran and failed, with the full text of the failure.
    Failed(S),
    /// The job was dropped before it ran.
    Canceled,
}

impl View for Outcome<(), String> {
    type V = Outcome<(), Seq<char>>;

    open spec fn view(&self) -> Outcome<(), Seq<char>> {
        match self {
            Outcome::Done(_) => Outcome::Done(()),
            Outcome::Failed(cause) => Outcome::Failed(cause@),
            Outcome::Canceled => Outcome::Canceled,
        }
    }
}

impl View for Outcome<Option<String>, String> {
    type V = Outcome<Option<Seq<char>>, Seq<char>>;

    open spec fn view(&self) -> Outcome<Option<Seq<char>>, Seq<char>> {
        match self {
            Outcome::Done(found) => Outcome::Done(optional_text(*found)),
            Outcome::Failed(cause) => Outcome::Failed(cause@),
            Outcome::Canceled => Outcome::Canceled,
        }
    }
}

/// The text of an optional string.
pub open spec fn optional_text(value: Option<String>) -> Option<Seq<char>> {
    match value {
        Some(text) => Some(text@),
        None => None,
    }
}

/// A result whose failure is taken by its text.
pub open spec fn failure_text<T>(result: Result<T, String>) -> Result<T, Seq<char>> {
    match result {
        Ok(value) => Ok(value),
        Err(cause) => Err(cause@),
    }
}

/// The record of one archived worktree.
#[derive(Debug, PartialEq, Eq)]
pub struct ArchivedGitWorktree<S> {
    pub id: i64,
    pub worktree_path: S,
    pub main_repo_path: S,
    pub branch_name: Option<S>,
    pub staged_commit_hash: S,
    pub unstaged_commit_hash: S,
    pub original_commit_hash: S,
}

impl View for ArchivedGitWorktree<String> {
    type V = ArchivedGitWorktree<Seq<char>>;

    open spec fn view(&self) -> ArchivedGitWorktree<Seq<char>> {
        ArchivedGitWorktree {
            id: self.id,
            worktree_path: self.worktree_path@,
            main_repo_path: self.main_repo_path@,
            branch_name: optional_text(self.branch_name),
            staged_commit_hash: self.staged_commit_hash@,
            unstaged_commit_hash: self.unstaged_commit_hash@,
            original_commit_hash: self.original_commit_hash@,
        }
    }
}

impl ArchivedGitWorktree<String> {
    /// A copy of the record.
    pub fn duplicate(&self) -> (r: Self)
        ensures
            r@ == self@,
    {
        ArchivedGitWorktree {
            id: self.id,
            worktree_path: self.worktree_path.clone(),
            main_repo_path: self.main_repo_path.clone(),
            branch_name: self.branch_name.clone(),
            staged_commit_hash: self.staged_commit_hash.clone(),
            unstaged_commit_hash: self.unstaged_commit_hash.clone(),
            original_commit_hash: self.original_commit_hash.clone(),
        }
    }
}

} // verus!
