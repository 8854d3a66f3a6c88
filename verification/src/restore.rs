//! Restoring an archived worktree, one step at a time.
//!
//! A restore always recreates the worktree from scratch. Whatever is found at
//! the worktree path is moved aside into a backup first; a failure moves it
//! back, and only a successful restore deletes it.
use vstd::prelude::*;

use crate::backup::{draw_token, place_backup, Backup, TempDir};
#[allow(unused_imports)]
use crate::backup::{backup_at, is_random_uuid};
use crate::content::content_of_entry;
#[allow(unused_imports)]
use crate::content::entry_content;
use crate::error::{around, ArchiveError};
use crate::model::{ArchivedGitWorktree, ConnectionId, EntryKind, Outcome, OverwritePolicy};
#[allow(unused_imports)]
use crate::model::failure_text;
use crate::text::mentions;
#[allow(unused_imports)]
use crate::text::occurs_in;

verus! {

/// Which of the two repositories of a restore is meant.
#[derive(Clone, Copy, Debug, PartialEq, Eq, Structural)]
pub enum RepositoryRole {
    /// The repository that the worktree is linked to.
    Main,
    /// The restored worktree itself.
    Worktree,
}

/// A rollback that could not put the user's content back.
#[derive(Debug, PartialEq, Eq)]
pub enum Alert<S> {
    /// Something stands at the worktree path that must not be removed.
    UnexpectedContent { path: S, cause: S, kept_at: S },
    /// The move back failed.
    MoveBackFailed { path: S, cause: S, kept_at: S, failure: S },
}

impl View for Alert<String> {
    type V = Alert<Seq<char>>;

    open spec fn view(&self) -> Alert<Seq<char>> {
        match self {
            Alert::UnexpectedContent { path, cause, kept_at } =>
                Alert::UnexpectedContent { path: path@, cause: cause@, kept_at: kept_at@ },
            Alert::MoveBackFailed { path, cause, kept_at, failure } => Alert::MoveBackFailed {
                path: path@,
                cause: cause@,
                kept_at: kept_at@,
                failure: failure@,
            },
        }
    }
}

impl Alert<Seq<char>> {
    /// What the log says: where the content is, and why the restore failed.
    pub open spec fn text(self) -> Seq<char> {
        match self {
            Alert::UnexpectedContent { path, cause, kept_at } => "cannot rollback: '"@ + path
                + "' has unexpected content after restore failure; original error: "@ + cause
                + "; user's pre-existing content remains at '"@ + kept_at
                + "' for manual recovery"@,
            Alert::MoveBackFailed { path, cause, kept_at, failure } => "failed to restore backup '"@
                + kept_at + "' to '"@ + path + "' after restore error: "@ + failure
                + "; original restore error: "@ + cause + "; user content remains at '"@ + kept_at
                + "' for manual recovery"@,
        }
    }

    /// Where the user's content is.
    pub open spec fn kept_at(self) -> Seq<char> {
        match self {
            Alert::UnexpectedContent { kept_at, .. } => kept_at,
            Alert::MoveBackFailed { kept_at, .. } => kept_at,
        }
    }

    /// Why the restore failed.
    pub open spec fn cause(self) -> Seq<char> {
        match self {
            Alert::UnexpectedContent { cause, .. } => cause,
            Alert::MoveBackFailed { cause, .. } => cause,
        }
    }
}

impl Alert<String> {
    /// The line for the log.
    pub fn message(&self) -> (r: String)
        ensures
            r@ == self@.text(),
    {
        match self {
            Alert::UnexpectedContent { path, cause, kept_at } => {
                let mut r = around(
                    "cannot rollback: '",
                    path,
                    "' has unexpected content after restore failure; original error: ",
                );
                r.append(cause);
                r.append("; user's pre-existing content remains at '");
                r.append(kept_at);
                r.append("' for manual recovery");
                r
            },
            Alert::MoveBackFailed { path, cause, kept_at, failure } => {
                let mut r = around("failed to restore backup '", kept_at, "' to '");
                r.append(path);
                r.append("' after restore error: ");
                r.append(failure);
                r.append("; original restore error: ");
                r.append(cause);
                r.append("; user content remains at '");
                r.append(kept_at);
                r.append("' for manual recovery");
                r
            },
        }
    }

    fn duplicate(&self) -> (r: Alert<String>)
        ensures
            r@ == self@,
    {
        match self {
            Alert::UnexpectedContent { path, cause, kept_at } => Alert::UnexpectedContent {
                path: path.clone(),
                cause: cause.clone(),
                kept_at: kept_at.clone(),
            },
            Alert::MoveBackFailed { path, cause, kept_at, failure } => Alert::MoveBackFailed {
                path: path.clone(),
                cause: cause.clone(),
                kept_at: kept_at.clone(),
                failure: failure.clone(),
            },
        }
    }
}

/// What a restore asks its environment to do next.
#[derive(Debug, PartialEq, Eq)]
pub enum RestoreAction<S> {
    /// Find an open workspace to take the application state from.
    FindAppState,
    /// Open the repository at `path`, and keep it under `role`.
    OpenRepository { role: RepositoryRole, path: S },
    /// Read the metadata of the entry at `path`.
    ReadEntry { path: S },
    /// Read the directory at `path` as far as its first entry.
    ReadDirectory { path: S },
    /// Draw a token that makes the name of the backup unique.
    DrawToken,
    /// Create the directory `dir`.
    CreateBackupDirectory { dir: S },
    /// Rename `from` to `to`, where nothing may exist yet.
    MoveAside { from: S, to: S },
    /// `git worktree remove --force` of `path` in the main repository.
    RemoveWorktree { path: S },
    /// `git worktree add --detach` of `path` at `commit` in the main repository.
    CreateWorktree { path: S, commit: S },
    /// Check out `branch` in the worktree.
    ChangeBranch { branch: S },
    /// Read the commit that HEAD of the worktree points at.
    ReadHead,
    /// Check out `commit` without a branch in the worktree at `path`.
    Detach { commit: S, path: S },
    /// Create `branch` at HEAD of the worktree and check it out.
    CreateBranch { branch: S },
    /// Read the two archived trees into the working directory and the index.
    RestoreCheckpoint { staged: S, unstaged: S },
    /// Remove the directory at `path`, which has to be empty.
    ClearDirectory { path: S },
    /// Rename `from` back to `to`, where nothing may exist.
    MoveBack { from: S, to: S },
    /// Remove the directory `dir` and all that is in it.
    DropBackup { dir: S },
    /// Log that content was left in the backup.
    Report(Alert<S>),
    /// Nothing: the restore has ended.
    Finish,
}

impl View for RestoreAction<String> {
    type V = RestoreAction<Seq<char>>;

    open spec fn view(&self) -> RestoreAction<Seq<char>> {
        match self {
            RestoreAction::FindAppState => RestoreAction::FindAppState,
            RestoreAction::OpenRepository { role, path } =>
                RestoreAction::OpenRepository { role: *role, path: path@ },
            RestoreAction::ReadEntry { path } => RestoreAction::ReadEntry { path: path@ },
            RestoreAction::ReadDirectory { path } => RestoreAction::ReadDirectory { path: path@ },
            RestoreAction::DrawToken => RestoreAction::DrawToken,
            RestoreAction::CreateBackupDirectory { dir } =>
                RestoreAction::CreateBackupDirectory { dir: dir@ },
            RestoreAction::MoveAside { from, to } =>
                RestoreAction::MoveAside { from: from@, to: to@ },
            RestoreAction::RemoveWorktree { path } => RestoreAction::RemoveWorktree { path: path@ },
            RestoreAction::CreateWorktree { path, commit } =>
                RestoreAction::CreateWorktree { path: path@, commit: commit@ },
            RestoreAction::ChangeBranch { branch } =>
                RestoreAction::ChangeBranch { branch: branch@ },
            RestoreAction::ReadHead => RestoreAction::ReadHead,
            RestoreAction::Detach { commit, path } =>
                RestoreAction::Detach { commit: commit@, path: path@ },
            RestoreAction::CreateBranch { branch } =>
                RestoreAction::CreateBranch { branch: branch@ },
            RestoreAction::RestoreCheckpoint { staged, unstaged } =>
                RestoreAction::RestoreCheckpoint { staged: staged@, unstaged: unstaged@ },
            RestoreAction::ClearDirectory { path } => RestoreAction::ClearDirectory { path: path@ },
            RestoreAction::MoveBack { from, to } => RestoreAction::MoveBack { from: from@, to: to@ },
            RestoreAction::DropBackup { dir } => RestoreAction::DropBackup { dir: dir@ },
            RestoreAction::Report(alert) => RestoreAction::Report(alert@),
            RestoreAction::Finish => RestoreAction::Finish,
        }
    }
}

/// What the environment answers to a [`RestoreAction`].
#[derive(Debug, PartialEq, Eq)]
pub enum RestoreReply<S> {
    /// To `FindAppState`: whether there is one.
    AppState(bool),
    /// To `OpenRepository`.
    Opened(Result<(), ArchiveError<S>>),
    /// To `ReadEntry`: the entry, if there is one.
    Entry(Result<Option<EntryKind>, S>),
    /// To `ReadDirectory`: whether it has an entry.
    Listing(Result<bool, S>),
    /// To `DrawToken`.
    Token(S),
    /// To the other requests to the file system.
    Files(Result<(), S>),
    /// To the other requests to a repository.
    Git(Outcome<(), S>),
    /// To `ReadHead`.
    Head(Outcome<Option<S>, S>),
    /// To `Report`.
    Reported,
}

impl View for RestoreReply<String> {
    type V = RestoreReply<Seq<char>>;

    open spec fn view(&self) -> RestoreReply<Seq<char>> {
        match self {
            RestoreReply::AppState(found) => RestoreReply::AppState(*found),
            RestoreReply::Opened(result) => RestoreReply::Opened(
                match result {
                    Ok(_) => Ok(()),
                    Err(error) => Err(error@),
                },
            ),
            RestoreReply::Entry(result) => RestoreReply::Entry(failure_text(*result)),
            RestoreReply::Listing(result) => RestoreReply::Listing(failure_text(*result)),
            RestoreReply::Token(token) => RestoreReply::Token(token@),
            RestoreReply::Files(result) => RestoreReply::Files(failure_text(*result)),
            RestoreReply::Git(outcome) => RestoreReply::Git(outcome@),
            RestoreReply::Head(outcome) => RestoreReply::Head(outcome@),
            RestoreReply::Reported => RestoreReply::Reported,
        }
    }
}

/// How far a restore has come. Each phase waits for the answer to one request.
#[derive(Debug, PartialEq, Eq)]
pub enum RestorePhase<S> {
    FindingAppState,
    OpeningMain,
    /// Looking whether anything stands at the worktree path.
    Probing,
    /// Looking, under `Refuse`, whether what stands there is content.
    CheckingEntry,
    CheckingListing,
    /// Something stands there that is to be moved aside, to a backup that has
    /// no name yet.
    NamingBackup,
    CreatingBackup,
    MovingAside,
    Unregistering,
    CreatingWorktree,
    OpeningWorktree,
    ChangingBranch(S),
    ReadingHead,
    Detaching,
    CreatingBranch(S),
    RestoringCheckpoint,
    /// The restore succeeded; the backup is no longer needed.
    DroppingBackup,
    /// The restore failed after the worktree was created, for the given reason.
    Discarding(ArchiveError<S>),
    /// The restore failed; the content is being moved back.
    RollbackProbing(ArchiveError<S>),
    RollbackListing(ArchiveError<S>),
    RollbackClearing(ArchiveError<S>),
    MovingBack(ArchiveError<S>),
    /// The restore failed and the content is back; its empty backup goes.
    DroppingEmptyBackup(ArchiveError<S>),
    /// The restore failed and the content could not be moved back.
    Reporting(ArchiveError<S>, Alert<S>),
    Finished(Result<S, ArchiveError<S>>),
}

impl View for RestorePhase<String> {
    type V = RestorePhase<Seq<char>>;

    open spec fn view(&self) -> RestorePhase<Seq<char>> {
        match self {
            RestorePhase::FindingAppState => RestorePhase::FindingAppState,
            RestorePhase::OpeningMain => RestorePhase::OpeningMain,
            RestorePhase::Probing => RestorePhase::Probing,
            RestorePhase::CheckingEntry => RestorePhase::CheckingEntry,
            RestorePhase::CheckingListing => RestorePhase::CheckingListing,
            RestorePhase::NamingBackup => RestorePhase::NamingBackup,
            RestorePhase::CreatingBackup => RestorePhase::CreatingBackup,
            RestorePhase::MovingAside => RestorePhase::MovingAside,
            RestorePhase::Unregistering => RestorePhase::Unregistering,
            RestorePhase::CreatingWorktree => RestorePhase::CreatingWorktree,
            RestorePhase::OpeningWorktree => RestorePhase::OpeningWorktree,
            RestorePhase::ChangingBranch(branch) => RestorePhase::ChangingBranch(branch@),
            RestorePhase::ReadingHead => RestorePhase::ReadingHead,
            RestorePhase::Detaching => RestorePhase::Detaching,
            RestorePhase::CreatingBranch(branch) => RestorePhase::CreatingBranch(branch@),
            RestorePhase::RestoringCheckpoint => RestorePhase::RestoringCheckpoint,
            RestorePhase::DroppingBackup => RestorePhase::DroppingBackup,
            RestorePhase::Discarding(error) => RestorePhase::Discarding(error@),
            RestorePhase::RollbackProbing(error) => RestorePhase::RollbackProbing(error@),
            RestorePhase::RollbackListing(error) => RestorePhase::RollbackListing(error@),
            RestorePhase::RollbackClearing(error) => RestorePhase::RollbackClearing(error@),
            RestorePhase::MovingBack(error) => RestorePhase::MovingBack(error@),
            RestorePhase::DroppingEmptyBackup(error) => RestorePhase::DroppingEmptyBackup(error@),
            RestorePhase::Reporting(error, alert) => RestorePhase::Reporting(error@, alert@),
            RestorePhase::Finished(result) => RestorePhase::Finished(
                match result {
                    Ok(path) => Ok(path@),
                    Err(error) => Err(error@),
                },
            ),
        }
    }
}

/// A restore in progress.
#[derive(Debug, PartialEq, Eq)]
pub struct RestoreWorktree<S> {
    /// The record that is being restored.
    pub row: ArchivedGitWorktree<S>,
    pub policy: OverwritePolicy,
    /// Where the backup is made.
    pub temp: TempDir<S>,
    /// What makes the name of the backup unique. Empty until it is drawn.
    pub token: S,
    /// Whether content has been moved to the backup.
    pub moved: bool,
    pub phase: RestorePhase<S>,
}

impl View for RestoreWorktree<String> {
    type V = RestoreWorktree<Seq<char>>;

    open spec fn view(&self) -> RestoreWorktree<Seq<char>> {
        RestoreWorktree {
            row: self.row@,
            policy: self.policy,
            temp: self.temp@,
            token: self.token@,
            moved: self.moved,
            phase: self.phase@,
        }
    }
}

/// Whether the message of a failed `git worktree remove` says that there was
/// no registration to remove.
pub open spec fn says_unregistered(message: Seq<char>) -> bool {
    occurs_in("not a working tree"@, message) || occurs_in("no worktree"@, message)
}

/// The reason that a rollback names as the original error. A failed removal
/// of a stale registration is named by its cause alone.
pub open spec fn rollback_reason(error: ArchiveError<Seq<char>>) -> Seq<char> {
    match error {
        ArchiveError::StaleRegistration { cause, .. } => cause,
        _ => error.text(),
    }
}

impl RestoreWorktree<Seq<char>> {
    /// A restore of `row` before its first request. One on a remote machine
    /// has already failed.
    pub open spec fn starting(
        row: ArchivedGitWorktree<Seq<char>>,
        remote: bool,
        policy: OverwritePolicy,
        temp: TempDir<Seq<char>>,
    ) -> Self {
        RestoreWorktree {
            row,
            policy,
            temp,
            token: Seq::empty(),
            moved: false,
            phase: if remote {
                RestorePhase::Finished(Err(ArchiveError::RemoteRestoreUnsupported))
            } else {
                RestorePhase::FindingAppState
            },
        }
    }

    /// Where content goes that stands at the worktree path.
    pub open spec fn backup(self) -> Backup<Seq<char>> {
        backup_at(self.temp, self.token)
    }

    /// The same restore in another phase.
    pub open spec fn at(self, phase: RestorePhase<Seq<char>>) -> Self {
        RestoreWorktree { phase, ..self }
    }

    /// The restore, failed, with nothing to undo.
    pub open spec fn failed(self, error: ArchiveError<Seq<char>>) -> Self {
        self.at(RestorePhase::Finished(Err(error)))
    }

    /// The restore, failed, with the content still to be moved back, if any.
    pub open spec fn rolling_back(self, error: ArchiveError<Seq<char>>) -> Self {
        if self.moved {
            self.at(RestorePhase::RollbackProbing(error))
        } else {
            self.failed(error)
        }
    }

    /// The restore, failed, with a worktree still to be thrown away.
    pub open spec fn discarding(self, error: ArchiveError<Seq<char>>) -> Self {
        self.at(RestorePhase::Discarding(error))
    }

    /// The restore, failed, with its content left in the backup.
    pub open spec fn reporting(
        self,
        error: ArchiveError<Seq<char>>,
        alert: Alert<Seq<char>>,
    ) -> Self {
        self.at(RestorePhase::Reporting(error, alert))
    }

    /// The alert that content at the worktree path blocks the rollback.
    pub open spec fn blocked(self, error: ArchiveError<Seq<char>>) -> Alert<Seq<char>> {
        Alert::UnexpectedContent {
            path: self.row.worktree_path,
            cause: rollback_reason(error),
            kept_at: self.backup().target,
        }
    }

    /// The request that the restore waits for.
    pub open spec fn pending(self) -> RestoreAction<Seq<char>> {
        let path = self.row.worktree_path;
        match self.phase {
            RestorePhase::FindingAppState => RestoreAction::FindAppState,
            RestorePhase::OpeningMain => RestoreAction::OpenRepository {
                role: RepositoryRole::Main,
                path: self.row.main_repo_path,
            },
            RestorePhase::Probing | RestorePhase::CheckingEntry | RestorePhase::RollbackProbing(_) =>
                RestoreAction::ReadEntry { path },
            RestorePhase::CheckingListing | RestorePhase::RollbackListing(_) =>
                RestoreAction::ReadDirectory { path },
            RestorePhase::NamingBackup => RestoreAction::DrawToken,
            RestorePhase::CreatingBackup =>
                RestoreAction::CreateBackupDirectory { dir: self.backup().dir },
            RestorePhase::MovingAside =>
                RestoreAction::MoveAside { from: path, to: self.backup().target },
            RestorePhase::Unregistering | RestorePhase::Discarding(_) =>
                RestoreAction::RemoveWorktree { path },
            RestorePhase::CreatingWorktree =>
                RestoreAction::CreateWorktree { path, commit: self.row.original_commit_hash },
            RestorePhase::OpeningWorktree =>
                RestoreAction::OpenRepository { role: RepositoryRole::Worktree, path },
            RestorePhase::ChangingBranch(branch) => RestoreAction::ChangeBranch { branch },
            RestorePhase::ReadingHead => RestoreAction::ReadHead,
            RestorePhase::Detaching =>
                RestoreAction::Detach { commit: self.row.original_commit_hash, path },
            RestorePhase::CreatingBranch(branch) => RestoreAction::CreateBranch { branch },
            RestorePhase::RestoringCheckpoint => RestoreAction::RestoreCheckpoint {
                staged: self.row.staged_commit_hash,
                unstaged: self.row.unstaged_commit_hash,
            },
            RestorePhase::RollbackClearing(_) => RestoreAction::ClearDirectory { path },
            RestorePhase::MovingBack(_) =>
                RestoreAction::MoveBack { from: self.backup().target, to: path },
            RestorePhase::DroppingBackup | RestorePhase::DroppingEmptyBackup(_) =>
                RestoreAction::DropBackup { dir: self.backup().dir },
            RestorePhase::Reporting(_, alert) => RestoreAction::Report(alert),
            RestorePhase::Finished(_) => RestoreAction::Finish,
        }
    }

    /// The restore after the environment has looked at what stands at the
    /// worktree path, and found it to be content or not.
    pub open spec fn content_known(self, content: bool) -> Self {
        if content {
            self.failed(ArchiveError::ExistingContent { path: self.row.worktree_path })
        } else {
            self.at(RestorePhase::NamingBackup)
        }
    }

    /// The restore after `git worktree remove` of a stale registration.
    pub open spec fn unregistered(self, outcome: Outcome<(), Seq<char>>) -> Self {
        let path = self.row.worktree_path;
        match outcome {
            Outcome::Done(_) => self.at(RestorePhase::CreatingWorktree),
            Outcome::Failed(cause) => if says_unregistered(cause) {
                self.at(RestorePhase::CreatingWorktree)
            } else {
                self.rolling_back(ArchiveError::StaleRegistration { path, cause })
            },
            Outcome::Canceled => self.rolling_back(
                ArchiveError::StaleRegistration { path, cause: "worktree remove was canceled"@ },
            ),
        }
    }

    /// The restore after `git worktree add`.
    pub open spec fn created(self, outcome: Outcome<(), Seq<char>>) -> Self {
        match outcome {
            Outcome::Done(_) => self.at(RestorePhase::OpeningWorktree),
            Outcome::Failed(cause) => self.discarding(ArchiveError::WorktreeCreation { cause }),
            Outcome::Canceled => self.discarding(ArchiveError::WorktreeCreationCanceled),
        }
    }

    /// The restore once the new worktree is open.
    pub open spec fn opened(self) -> Self {
        match self.row.branch_name {
            Some(branch) => self.at(RestorePhase::ChangingBranch(branch)),
            None => self.at(RestorePhase::RestoringCheckpoint),
        }
    }

    /// The restore once HEAD of the checked out branch is known: a branch that
    /// has moved away from the archived commit is left again.
    pub open spec fn head_known(self, outcome: Outcome<Option<Seq<char>>, Seq<char>>) -> Self {
        match outcome {
            Outcome::Done(Some(commit)) => if commit == self.row.original_commit_hash {
                self.at(RestorePhase::RestoringCheckpoint)
            } else {
                self.at(RestorePhase::Detaching)
            },
            _ => self.at(RestorePhase::RestoringCheckpoint),
        }
    }

    /// The restore after the archived trees were read back.
    pub open spec fn checkpoint_read(self, outcome: Outcome<(), Seq<char>>) -> Self {
        match outcome {
            Outcome::Done(_) => if self.moved {
                self.at(RestorePhase::DroppingBackup)
            } else {
                self.at(RestorePhase::Finished(Ok(self.row.worktree_path)))
            },
            Outcome::Failed(cause) => self.discarding(ArchiveError::RestoreCheckpoint { cause }),
            Outcome::Canceled => self.discarding(
                ArchiveError::RestoreCheckpoint { cause: "restore_archive_checkpoint canceled"@ },
            ),
        }
    }

    /// The rollback after it looked at the worktree path: only an empty
    /// directory, or nothing at all, may give way to the content.
    pub open spec fn rollback_seen(
        self,
        error: ArchiveError<Seq<char>>,
        entry: Result<Option<EntryKind>, Seq<char>>,
    ) -> Self {
        match entry {
            Ok(Some(kind)) => if kind.is_dir {
                self.at(RestorePhase::RollbackListing(error))
            } else {
                self.reporting(error, self.blocked(error))
            },
            _ => self.at(RestorePhase::MovingBack(error)),
        }
    }

    /// The rollback after the content was to be moved back.
    pub open spec fn moved_back(
        self,
        error: ArchiveError<Seq<char>>,
        result: Result<(), Seq<char>>,
    ) -> Self {
        match result {
            Ok(_) => self.at(RestorePhase::DroppingEmptyBackup(error)),
            Err(failure) => self.reporting(
                error,
                Alert::MoveBackFailed {
                    path: self.row.worktree_path,
                    cause: rollback_reason(error),
                    kept_at: self.backup().target,
                    failure,
                },
            ),
        }
    }

    /// The restore after `reply` to the pending request. A reply to another
    /// request changes nothing.
    pub open spec fn next(self, reply: RestoreReply<Seq<char>>) -> Self {
        match (self.phase, reply) {
            (RestorePhase::FindingAppState, RestoreReply::AppState(found)) => if found {
                self.at(RestorePhase::OpeningMain)
            } else {
                self.failed(ArchiveError::NoAppState)
            },
            (RestorePhase::OpeningMain, RestoreReply::Opened(result)) => match result {
                Ok(_) => self.at(RestorePhase::Probing),
                Err(error) => self.failed(error),
            },
            (RestorePhase::Probing, RestoreReply::Entry(result)) => match result {
                Err(cause) => self.failed(ArchiveError::Host(cause)),
                Ok(None) => self.at(RestorePhase::Unregistering),
                Ok(Some(_)) => match self.policy {
                    OverwritePolicy::Refuse => self.at(RestorePhase::CheckingEntry),
                    OverwritePolicy::Overwrite => self.at(RestorePhase::NamingBackup),
                },
            },
            (RestorePhase::CheckingEntry, RestoreReply::Entry(result)) => match result {
                Err(cause) => self.failed(ArchiveError::Host(cause)),
                Ok(entry) => match entry_content(entry) {
                    Some(content) => self.content_known(content),
                    None => self.at(RestorePhase::CheckingListing),
                },
            },
            (RestorePhase::CheckingListing, RestoreReply::Listing(result)) => match result {
                Err(cause) => self.failed(ArchiveError::Host(cause)),
                Ok(occupied) => self.content_known(occupied),
            },
            (RestorePhase::NamingBackup, RestoreReply::Token(token)) => RestoreWorktree {
                token,
                phase: RestorePhase::CreatingBackup,
                ..self
            },
            (RestorePhase::CreatingBackup, RestoreReply::Files(result)) => match result {
                Err(cause) => self.failed(
                    ArchiveError::BackupDirectory { dir: self.backup().dir, cause },
                ),
                Ok(_) => self.at(RestorePhase::MovingAside),
            },
            (RestorePhase::MovingAside, RestoreReply::Files(result)) => match result {
                Err(cause) => self.failed(
                    ArchiveError::MoveAside {
                        path: self.row.worktree_path,
                        target: self.backup().target,
                        cause,
                    },
                ),
                Ok(_) => RestoreWorktree {
                    moved: true,
                    phase: RestorePhase::Unregistering,
                    ..self
                },
            },
            (RestorePhase::Unregistering, RestoreReply::Git(outcome)) => self.unregistered(outcome),
            (RestorePhase::CreatingWorktree, RestoreReply::Git(outcome)) => self.created(outcome),
            (RestorePhase::OpeningWorktree, RestoreReply::Opened(result)) => match result {
                Ok(_) => self.opened(),
                Err(error) => self.discarding(error),
            },
            (RestorePhase::ChangingBranch(branch), RestoreReply::Git(outcome)) => match outcome {
                Outcome::Done(_) => self.at(RestorePhase::ReadingHead),
                _ => self.at(RestorePhase::CreatingBranch(branch)),
            },
            (RestorePhase::ReadingHead, RestoreReply::Head(outcome)) => self.head_known(outcome),
            (RestorePhase::Detaching, RestoreReply::Git(_)) =>
                self.at(RestorePhase::RestoringCheckpoint),
            (RestorePhase::CreatingBranch(_), RestoreReply::Git(_)) =>
                self.at(RestorePhase::RestoringCheckpoint),
            (RestorePhase::RestoringCheckpoint, RestoreReply::Git(outcome)) =>
                self.checkpoint_read(outcome),
            (RestorePhase::DroppingBackup, RestoreReply::Files(_)) =>
                self.at(RestorePhase::Finished(Ok(self.row.worktree_path))),
            (RestorePhase::Discarding(error), RestoreReply::Git(_)) => self.rolling_back(error),
            (RestorePhase::RollbackProbing(error), RestoreReply::Entry(result)) =>
                self.rollback_seen(error, result),
            (RestorePhase::RollbackListing(error), RestoreReply::Listing(result)) =>
                if result == Ok::<bool, Seq<char>>(false) {
                    self.at(RestorePhase::RollbackClearing(error))
                } else {
                    self.reporting(error, self.blocked(error))
                },
            (RestorePhase::RollbackClearing(error), RestoreReply::Files(_)) =>
                self.at(RestorePhase::MovingBack(error)),
            (RestorePhase::MovingBack(error), RestoreReply::Files(result)) =>
                self.moved_back(error, result),
            (RestorePhase::DroppingEmptyBackup(error), RestoreReply::Files(_)) => self.failed(error),
            (RestorePhase::Reporting(error, _), RestoreReply::Reported) => self.failed(error),
            _ => self,
        }
    }

    /// How the restore ended, once it has.
    pub open spec fn outcome(self) -> Option<Result<Seq<char>, ArchiveError<Seq<char>>>> {
        match self.phase {
            RestorePhase::Finished(result) => Some(result),
            _ => None,
        }
    }
}

/// Tests whether the message of a failed `git worktree remove` says that
/// there was no registration to remove.
pub fn reports_unregistered(message: &str) -> (r: bool)
    ensures
        r == says_unregistered(message@),
{
    mentions(message, "not a working tree") || mentions(message, "no worktree")
}

/// Writes the reason that a rollback names as the original error.
fn reason_text(error: &ArchiveError<String>) -> (r: String)
    ensures
        r@ == rollback_reason(error@),
{
    match error {
        ArchiveError::StaleRegistration { cause, .. } => cause.clone(),
        _ => error.message(),
    }
}

impl RestoreWorktree<String> {
    /// The request that the restore waits for.
    pub fn pending(&self) -> (r: RestoreAction<String>)
        ensures
            r@ == self@.pending(),
    {
        let path = self.row.worktree_path.clone();
        match &self.phase {
            RestorePhase::FindingAppState => RestoreAction::FindAppState,
            RestorePhase::OpeningMain => RestoreAction::OpenRepository {
                role: RepositoryRole::Main,
                path: self.row.main_repo_path.clone(),
            },
            RestorePhase::Probing => RestoreAction::ReadEntry { path },
            RestorePhase::CheckingEntry => RestoreAction::ReadEntry { path },
            RestorePhase::RollbackProbing(_) => RestoreAction::ReadEntry { path },
            RestorePhase::CheckingListing => RestoreAction::ReadDirectory { path },
            RestorePhase::RollbackListing(_) => RestoreAction::ReadDirectory { path },
            RestorePhase::NamingBackup => RestoreAction::DrawToken,
            RestorePhase::CreatingBackup =>
                RestoreAction::CreateBackupDirectory { dir: self.place().dir },
            RestorePhase::MovingAside =>
                RestoreAction::MoveAside { from: path, to: self.place().target },
            RestorePhase::Unregistering => RestoreAction::RemoveWorktree { path },
            RestorePhase::Discarding(_) => RestoreAction::RemoveWorktree { path },
            RestorePhase::CreatingWorktree =>
                RestoreAction::CreateWorktree {
                    path,
                    commit: self.row.original_commit_hash.clone(),
                },
            RestorePhase::OpeningWorktree =>
                RestoreAction::OpenRepository { role: RepositoryRole::Worktree, path },
            RestorePhase::ChangingBranch(branch) =>
                RestoreAction::ChangeBranch { branch: branch.clone() },
            RestorePhase::ReadingHead => RestoreAction::ReadHead,
            RestorePhase::Detaching =>
                RestoreAction::Detach { commit: self.row.original_commit_hash.clone(), path },
            RestorePhase::CreatingBranch(branch) =>
                RestoreAction::CreateBranch { branch: branch.clone() },
            RestorePhase::RestoringCheckpoint => RestoreAction::RestoreCheckpoint {
                staged: self.row.staged_commit_hash.clone(),
                unstaged: self.row.unstaged_commit_hash.clone(),
            },
            RestorePhase::RollbackClearing(_) => RestoreAction::ClearDirectory { path },
            RestorePhase::MovingBack(_) =>
                RestoreAction::MoveBack { from: self.place().target, to: path },
            RestorePhase::DroppingBackup =>
                RestoreAction::DropBackup { dir: self.place().dir },
            RestorePhase::DroppingEmptyBackup(_) =>
                RestoreAction::DropBackup { dir: self.place().dir },
            RestorePhase::Reporting(_, alert) => RestoreAction::Report(alert.duplicate()),
            RestorePhase::Finished(_) => RestoreAction::Finish,
        }
    }

    fn place(&self) -> (r: Backup<String>)
        ensures
            r@ == self@.backup(),
    {
        place_backup(&self.temp, &self.token)
    }

    fn enter(self, phase: RestorePhase<String>) -> (r: Self)
        ensures
            r@ == self@.at(phase@),
    {
        RestoreWorktree {
            row: self.row,
            policy: self.policy,
            temp: self.temp,
            token: self.token,
            moved: self.moved,
            phase,
        }
    }

    fn fail(self, error: ArchiveError<String>) -> (r: Self)
        ensures
            r@ == self@.failed(error@),
    {
        self.enter(RestorePhase::Finished(Err(error)))
    }

    fn roll_back(self, error: ArchiveError<String>) -> (r: Self)
        ensures
            r@ == self@.rolling_back(error@),
    {
        if self.moved {
            self.enter(RestorePhase::RollbackProbing(error))
        } else {
            self.fail(error)
        }
    }

    fn discard(self, error: ArchiveError<String>) -> (r: Self)
        ensures
            r@ == self@.discarding(error@),
    {
        self.enter(RestorePhase::Discarding(error))
    }

    fn report_blocked(self, error: ArchiveError<String>) -> (r: Self)
        ensures
            r@ == self@.reporting(error@, self@.blocked(error@)),
    {
        let alert = Alert::UnexpectedContent {
            path: self.row.worktree_path.clone(),
            cause: reason_text(&error),
            kept_at: self.place().target,
        };
        self.enter(RestorePhase::Reporting(error, alert))
    }

    fn know_content(self, content: bool) -> (r: Self)
        ensures
            r@ == self@.content_known(content),
    {
        if content {
            let path = self.row.worktree_path.clone();
            self.fail(ArchiveError::ExistingContent { path })
        } else {
            self.enter(RestorePhase::NamingBackup)
        }
    }

    fn after_unregistering(self, outcome: Outcome<(), String>) -> (r: Self)
        ensures
            r@ == self@.unregistered(outcome@),
    {
        let path = self.row.worktree_path.clone();
        match outcome {
            Outcome::Done(_) => self.enter(RestorePhase::CreatingWorktree),
            Outcome::Failed(cause) => {
                if reports_unregistered(&cause) {
                    self.enter(RestorePhase::CreatingWorktree)
                } else {
                    self.roll_back(ArchiveError::StaleRegistration { path, cause })
                }
            },
            Outcome::Canceled => self.roll_back(
                ArchiveError::StaleRegistration {
                    path,
                    cause: "worktree remove was canceled".to_owned(),
                },
            ),
        }
    }

    fn after_creating(self, outcome: Outcome<(), String>) -> (r: Self)
        ensures
            r@ == self@.created(outcome@),
    {
        match outcome {
            Outcome::Done(_) => self.enter(RestorePhase::OpeningWorktree),
            Outcome::Failed(cause) => self.discard(ArchiveError::WorktreeCreation { cause }),
            Outcome::Canceled => self.discard(ArchiveError::WorktreeCreationCanceled),
        }
    }

    fn after_opening(self) -> (r: Self)
        ensures
            r@ == self@.opened(),
    {
        let branch_name = self.row.branch_name.clone();
        match branch_name {
            Some(branch) => self.enter(RestorePhase::ChangingBranch(branch)),
            None => self.enter(RestorePhase::RestoringCheckpoint),
        }
    }

    fn after_head(self, outcome: Outcome<Option<String>, String>) -> (r: Self)
        ensures
            r@ == self@.head_known(outcome@),
    {
        match outcome {
            Outcome::Done(Some(commit)) => {
                if commit == self.row.original_commit_hash {
                    self.enter(RestorePhase::RestoringCheckpoint)
                } else {
                    self.enter(RestorePhase::Detaching)
                }
            },
            _ => self.enter(RestorePhase::RestoringCheckpoint),
        }
    }

    fn after_checkpoint(self, outcome: Outcome<(), String>) -> (r: Self)
        ensures
            r@ == self@.checkpoint_read(outcome@),
    {
        match outcome {
            Outcome::Done(_) => {
                if self.moved {
                    self.enter(RestorePhase::DroppingBackup)
                } else {
                    let path = self.row.worktree_path.clone();
                    self.enter(RestorePhase::Finished(Ok(path)))
                }
            },
            Outcome::Failed(cause) => self.discard(ArchiveError::RestoreCheckpoint { cause }),
            Outcome::Canceled => self.discard(
                ArchiveError::RestoreCheckpoint {
                    cause: "restore_archive_checkpoint canceled".to_owned(),
                },
            ),
        }
    }

    fn after_rollback_probe(
        self,
        error: ArchiveError<String>,
        entry: Result<Option<EntryKind>, String>,
    ) -> (r: Self)
        ensures
            r@ == self@.rollback_seen(error@, failure_text(entry)),
    {
        match entry {
            Ok(Some(kind)) => {
                if kind.is_dir {
                    self.enter(RestorePhase::RollbackListing(error))
                } else {
                    self.report_blocked(error)
                }
            },
            _ => self.enter(RestorePhase::MovingBack(error)),
        }
    }

    fn after_move_back(self, error: ArchiveError<String>, result: Result<(), String>) -> (r: Self)
        ensures
            r@ == self@.moved_back(error@, failure_text(result)),
    {
        match result {
            Ok(_) => self.enter(RestorePhase::DroppingEmptyBackup(error)),
            Err(failure) => {
                let alert = Alert::MoveBackFailed {
                    path: self.row.worktree_path.clone(),
                    cause: reason_text(&error),
                    kept_at: self.place().target,
                    failure,
                };
                self.enter(RestorePhase::Reporting(error, alert))
            },
        }
    }

    /// Takes the answer to the pending request and moves on to the next one. An
    /// answer to another request is ignored.
    pub fn answer(self, reply: RestoreReply<String>) -> (r: Self)
        ensures
            r@ == self@.next(reply@),
    {
        let RestoreWorktree { row, policy, temp, token, moved, phase } = self;
        let path = row.worktree_path.clone();
        let rest = RestoreWorktree { row, policy, temp, token, moved, phase: RestorePhase::Probing };
        match (phase, reply) {
            (RestorePhase::FindingAppState, RestoreReply::AppState(found)) => {
                if found {
                    rest.enter(RestorePhase::OpeningMain)
                } else {
                    rest.fail(ArchiveError::NoAppState)
                }
            },
            (RestorePhase::OpeningMain, RestoreReply::Opened(result)) => match result {
                Ok(_) => rest.enter(RestorePhase::Probing),
                Err(error) => rest.fail(error),
            },
            (RestorePhase::Probing, RestoreReply::Entry(result)) => match result {
                Err(cause) => rest.fail(ArchiveError::Host(cause)),
                Ok(None) => rest.enter(RestorePhase::Unregistering),
                Ok(Some(_)) => match policy {
                    OverwritePolicy::Refuse => rest.enter(RestorePhase::CheckingEntry),
                    OverwritePolicy::Overwrite => rest.enter(RestorePhase::NamingBackup),
                },
            },
            (RestorePhase::CheckingEntry, RestoreReply::Entry(result)) => match result {
                Err(cause) => rest.fail(ArchiveError::Host(cause)),
                Ok(entry) => match content_of_entry(entry) {
                    Some(content) => rest.know_content(content),
                    None => rest.enter(RestorePhase::CheckingListing),
                },
            },
            (RestorePhase::CheckingListing, RestoreReply::Listing(result)) => match result {
                Err(cause) => rest.fail(ArchiveError::Host(cause)),
                Ok(occupied) => rest.know_content(occupied),
            },
            (RestorePhase::NamingBackup, RestoreReply::Token(drawn)) => RestoreWorktree {
                row: rest.row,
                policy,
                temp: rest.temp,
                token: drawn,
                moved,
                phase: RestorePhase::CreatingBackup,
            },
            (RestorePhase::CreatingBackup, RestoreReply::Files(result)) => match result {
                Err(cause) => {
                    let dir = rest.place().dir;
                    rest.fail(ArchiveError::BackupDirectory { dir, cause })
                },
                Ok(_) => rest.enter(RestorePhase::MovingAside),
            },
            (RestorePhase::MovingAside, RestoreReply::Files(result)) => match result {
                Err(cause) => {
                    let target = rest.place().target;
                    rest.fail(ArchiveError::MoveAside { path, target, cause })
                },
                Ok(_) => RestoreWorktree {
                    row: rest.row,
                    policy,
                    temp: rest.temp,
                    token: rest.token,
                    moved: true,
                    phase: RestorePhase::Unregistering,
                },
            },
            (RestorePhase::Unregistering, RestoreReply::Git(outcome)) =>
                rest.after_unregistering(outcome),
            (RestorePhase::CreatingWorktree, RestoreReply::Git(outcome)) =>
                rest.after_creating(outcome),
            (RestorePhase::OpeningWorktree, RestoreReply::Opened(result)) => match result {
                Ok(_) => rest.after_opening(),
                Err(error) => rest.discard(error),
            },
            (RestorePhase::ChangingBranch(branch), RestoreReply::Git(outcome)) => match outcome {
                Outcome::Done(_) => rest.enter(RestorePhase::ReadingHead),
                _ => rest.enter(RestorePhase::CreatingBranch(branch)),
            },
            (RestorePhase::ReadingHead, RestoreReply::Head(outcome)) => rest.after_head(outcome),
            (RestorePhase::Detaching, RestoreReply::Git(_)) =>
                rest.enter(RestorePhase::RestoringCheckpoint),
            (RestorePhase::CreatingBranch(_), RestoreReply::Git(_)) =>
                rest.enter(RestorePhase::RestoringCheckpoint),
            (RestorePhase::RestoringCheckpoint, RestoreReply::Git(outcome)) =>
                rest.after_checkpoint(outcome),
            (RestorePhase::DroppingBackup, RestoreReply::Files(_)) =>
                rest.enter(RestorePhase::Finished(Ok(path))),
            (RestorePhase::Discarding(error), RestoreReply::Git(_)) => rest.roll_back(error),
            (RestorePhase::RollbackProbing(error), RestoreReply::Entry(result)) =>
                rest.after_rollback_probe(error, result),
            (RestorePhase::RollbackListing(error), RestoreReply::Listing(result)) => match result {
                Ok(false) => rest.enter(RestorePhase::RollbackClearing(error)),
                _ => rest.report_blocked(error),
            },
            (RestorePhase::RollbackClearing(error), RestoreReply::Files(_)) =>
                rest.enter(RestorePhase::MovingBack(error)),
            (RestorePhase::MovingBack(error), RestoreReply::Files(result)) =>
                rest.after_move_back(error, result),
            (RestorePhase::DroppingEmptyBackup(error), RestoreReply::Files(_)) => rest.fail(error),
            (RestorePhase::Reporting(error, _), RestoreReply::Reported) => rest.fail(error),
            (phase, _) => rest.enter(phase),
        }
    }

    /// Takes the answer to the pending request and moves on. Where something is
    /// to be moved aside next, this draws the token for its backup; it draws
    /// none otherwise, so a token is not pending after it.
    pub fn step(self, reply: RestoreReply<String>) -> (r: Self)
        ensures
            ({
                let next = self@.next(reply@);
                if next.phase is NamingBackup {
                    exists|token: Seq<char>| #[trigger]
                        is_random_uuid(token) && r@ == next.next(RestoreReply::Token(token))
                } else {
                    r@ == next
                }
            }),
            !(r@.pending() is DrawToken),
    {
        let next = self.answer(reply);
        match &next.phase {
            RestorePhase::NamingBackup => {
                let token = draw_token();
                next.answer(RestoreReply::Token(token))
            },
            _ => next,
        }
    }

    /// How the restore ended: the path of the worktree, or why it failed.
    /// `None` while a request is pending.
    pub fn finish(self) -> (r: Option<Result<String, ArchiveError<String>>>)
        ensures
            match r {
                Some(Ok(path)) => self@.outcome() == Some(Ok::<_, ArchiveError<Seq<char>>>(path@)),
                Some(Err(error)) => self@.outcome() == Some(Err::<Seq<char>, _>(error@)),
                None => self@.outcome() is None,
            },
    {
        match self.phase {
            RestorePhase::Finished(result) => Some(result),
            _ => None,
        }
    }
}

/// Starts to restore a previously archived worktree back to disk from its
/// record.
///
/// The worktree is created at the original commit, switched to its branch,
/// and the staged and unstaged state is read back from the archived commits.
/// Any entry at the worktree path is first moved into a fresh directory under
/// the system's temporary directory `temp`; a failure moves it back, success
/// deletes it. Under [`OverwritePolicy::Refuse`] content at the path is an
/// error, and nothing is touched.
pub fn restore_worktree_via_git(
    row: &ArchivedGitWorktree<String>,
    remote_connection: Option<ConnectionId>,
    overwrite_policy: OverwritePolicy,
    temp: TempDir<String>,
) -> (r: RestoreWorktree<String>)
    ensures
        r@ == RestoreWorktree::starting(
            row@,
            remote_connection is Some,
            overwrite_policy,
            temp@,
        ),
{
    let phase = if remote_connection.is_some() {
        RestorePhase::Finished(Err(ArchiveError::RemoteRestoreUnsupported))
    } else {
        RestorePhase::FindingAppState
    };
    let token = String::new();
    assert(token@ =~= Seq::empty());
    RestoreWorktree {
        row: row.duplicate(),
        policy: overwrite_policy,
        temp,
        token,
        moved: false,
        phase,
    }
}

} // verus!
