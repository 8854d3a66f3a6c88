//! That what contracts say of a request, an answer or a record is that very
//! one: nothing is left out, and nothing stands for something else.
use vstd::prelude::*;

#[allow(unused_imports)]
use crate::backup::{Backup, TempDir};
use crate::content::{ContentAction, ContentReply};
use crate::error::ArchiveError;
use crate::model::{ArchivedGitWorktree, Outcome};
use crate::persist::{Checkpoint, PersistAction, PersistReply, ThreadEntry};
use crate::plan::RootPlan;
use crate::record::RecordAction;
use crate::removal::{RemoveAction, RemoveReply};
use crate::repository::{OpenAction, OpenReply};
use crate::restore::{Alert, RestoreAction, RestoreReply};
use crate::thread_cleanup::{CleanupAction, CleanupReply};
use crate::workspace::RepositoryEntry;

verus! {

/// Whether the one text is the other, or both are missing.
pub open spec fn same_option(a: Option<String>, b: Option<Seq<char>>) -> bool {
    match (a, b) {
        (Some(s), Some(t)) => s@ == t,
        (None, None) => true,
        _ => false,
    }
}

/// Whether both succeeded with the same value, or failed with the same text.
pub open spec fn same_result<T>(a: Result<T, String>, b: Result<T, Seq<char>>) -> bool {
    match (a, b) {
        (Ok(s), Ok(t)) => s == t,
        (Err(s), Err(t)) => s@ == t,
        _ => false,
    }
}

/// Whether both succeeded, or failed for the same reason.
pub open spec fn same_opening(
    a: Result<(), ArchiveError<String>>,
    b: Result<(), ArchiveError<Seq<char>>>,
) -> bool {
    match (a, b) {
        (Ok(_), Ok(_)) => true,
        (Err(s), Err(t)) => s@ == t,
        _ => false,
    }
}

/// Whether both wrote the same commits, failed with the same text, or were
/// canceled.
pub open spec fn same_checkpoint(
    a: Outcome<Checkpoint<String>, String>,
    b: Outcome<Checkpoint<Seq<char>>, Seq<char>>,
) -> bool {
    match (a, b) {
        (Outcome::Done(s), Outcome::Done(t)) => s.staged@ == t.staged && s.unstaged@ == t.unstaged,
        (Outcome::Failed(s), Outcome::Failed(t)) => s@ == t,
        (Outcome::Canceled, Outcome::Canceled) => true,
        _ => false,
    }
}

/// A record is taken field by field.
pub proof fn records_are_taken_field_by_field(row: ArchivedGitWorktree<String>)
    ensures
        row@.id == row.id,
        row@.worktree_path == row.worktree_path@,
        row@.main_repo_path == row.main_repo_path@,
        same_option(row.branch_name, row@.branch_name),
        row@.staged_commit_hash == row.staged_commit_hash@,
        row@.unstaged_commit_hash == row.unstaged_commit_hash@,
        row@.original_commit_hash == row.original_commit_hash@,
{
}

/// A plan is taken field by field.
pub proof fn plans_are_taken_field_by_field(root: RootPlan)
    ensures
        root@.root_path == root.root_path@,
        root@.main_repo_path == root.main_repo_path@,
        root@.affected_projects == root.affected_projects@,
        root@.worktree_repo == root.worktree_repo,
        same_option(root.branch_name, root@.branch_name),
        root@.remote_connection == root.remote_connection,
{
}

/// The directory for temporary files, and the place of a backup, are taken
/// field by field.
pub proof fn places_are_taken_field_by_field(temp: TempDir<String>, backup: Backup<String>)
    ensures
        temp@.path == temp.path@,
        temp@.separator == temp.separator,
        backup@.dir == backup.dir@,
        backup@.target == backup.target@,
{
}

/// How a job ended is taken as it is.
pub proof fn outcomes_are_taken_as_they_are(x: Outcome<(), String>)
    ensures
        match (x, x@) {
            (Outcome::Done(a0), Outcome::Done(b0)) => a0 == b0,
            (Outcome::Failed(a0), Outcome::Failed(b0)) => a0@ == b0,
            (Outcome::Canceled, Outcome::Canceled) => true,
            _ => false,
        },
{
}

/// How a job that gives an optional text ended is taken as it is.
pub proof fn outcomes_with_text_are_taken_as_they_are(x: Outcome<Option<String>, String>)
    ensures
        match (x, x@) {
            (Outcome::Done(a0), Outcome::Done(b0)) => same_option(a0, b0),
            (Outcome::Failed(a0), Outcome::Failed(b0)) => a0@ == b0,
            (Outcome::Canceled, Outcome::Canceled) => true,
            _ => false,
        },
{
}

/// A failure is taken as it is.
pub proof fn failures_are_taken_as_they_are(x: ArchiveError<String>)
    ensures
        match (x, x@) {
            (ArchiveError::Host(a0), ArchiveError::Host(b0)) => a0@ == b0,
            (ArchiveError::RemoteRestoreUnsupported, ArchiveError::RemoteRestoreUnsupported) => true,
            (ArchiveError::NoAppState, ArchiveError::NoAppState) => true,
            (ArchiveError::NoAppStateForTemporaryProject, ArchiveError::NoAppStateForTemporaryProject) => true,
            (ArchiveError::RemoteDisconnected, ArchiveError::RemoteDisconnected) => true,
            (ArchiveError::RemoteConnectionCanceled, ArchiveError::RemoteConnectionCanceled) => true,
            (ArchiveError::TemporaryRepositoryUnresolved, ArchiveError::TemporaryRepositoryUnresolved) => true,
            (ArchiveError::TemporaryRepositoryBarrierCanceled, ArchiveError::TemporaryRepositoryBarrierCanceled) => true,
            (ArchiveError::WorktreeCreationCanceled, ArchiveError::WorktreeCreationCanceled) => true,
            (ArchiveError::MetadataCleanupCanceled, ArchiveError::MetadataCleanupCanceled) => true,
            (ArchiveError::HeadCanceled, ArchiveError::HeadCanceled) => true,
            (ArchiveError::HeadMissing, ArchiveError::HeadMissing) => true,
            (ArchiveError::CheckpointCanceled, ArchiveError::CheckpointCanceled) => true,
            (ArchiveError::ExistingContent { path: a0 }, ArchiveError::ExistingContent { path: b0 }) => a0@ == b0,
            (ArchiveError::BackupDirectory { dir: a0, cause: a1 }, ArchiveError::BackupDirectory { dir: b0, cause: b1 }) => a0@ == b0 && a1@ == b1,
            (ArchiveError::MoveAside { path: a0, target: a1, cause: a2 }, ArchiveError::MoveAside { path: b0, target: b1, cause: b2 }) => a0@ == b0 && a1@ == b1 && a2@ == b2,
            (ArchiveError::StaleRegistration { path: a0, cause: a1 }, ArchiveError::StaleRegistration { path: b0, cause: b1 }) => a0@ == b0 && a1@ == b1,
            (ArchiveError::RefCreation { name: a0, cause: a1 }, ArchiveError::RefCreation { name: b0, cause: b1 }) => a0@ == b0 && a1@ == b1,
            (ArchiveError::WorktreeCreation { cause: a0 }, ArchiveError::WorktreeCreation { cause: b0 }) => a0@ == b0,
            (ArchiveError::RestoreCheckpoint { cause: a0 }, ArchiveError::RestoreCheckpoint { cause: b0 }) => a0@ == b0,
            (ArchiveError::MetadataCleanup { cause: a0 }, ArchiveError::MetadataCleanup { cause: b0 }) => a0@ == b0,
            (ArchiveError::HeadUnreadable { cause: a0 }, ArchiveError::HeadUnreadable { cause: b0 }) => a0@ == b0,
            (ArchiveError::CheckpointFailed { cause: a0 }, ArchiveError::CheckpointFailed { cause: b0 }) => a0@ == b0,
            (ArchiveError::RecordCreation { cause: a0 }, ArchiveError::RecordCreation { cause: b0 }) => a0@ == b0,
            (ArchiveError::ThreadLink { cause: a0 }, ArchiveError::ThreadLink { cause: b0 }) => a0@ == b0,
            (ArchiveError::MainRepository { cause: a0 }, ArchiveError::MainRepository { cause: b0 }) => a0@ == b0,
            _ => false,
        },
{
}

/// An alert is taken as it is.
pub proof fn alerts_are_taken_as_they_are(x: Alert<String>)
    ensures
        match (x, x@) {
            (Alert::UnexpectedContent { path: a0, cause: a1, kept_at: a2 }, Alert::UnexpectedContent { path: b0, cause: b1, kept_at: b2 }) => a0@ == b0 && a1@ == b1 && a2@ == b2,
            (Alert::MoveBackFailed { path: a0, cause: a1, kept_at: a2, failure: a3 }, Alert::MoveBackFailed { path: b0, cause: b1, kept_at: b2, failure: b3 }) => a0@ == b0 && a1@ == b1 && a2@ == b2 && a3@ == b3,
            _ => false,
        },
{
}

/// A request of a content check is taken as it is.
pub proof fn requests_of_content_checks_are_taken_as_they_are(x: ContentAction<String>)
    ensures
        match (x, x@) {
            (ContentAction::FindAppState, ContentAction::FindAppState) => true,
            (ContentAction::ReadEntry { path: a0 }, ContentAction::ReadEntry { path: b0 }) => a0@ == b0,
            (ContentAction::ReadDirectory { path: a0 }, ContentAction::ReadDirectory { path: b0 }) => a0@ == b0,
            (ContentAction::Finish, ContentAction::Finish) => true,
            _ => false,
        },
{
}

/// An answer to a content check is taken as it is.
pub proof fn answers_to_content_checks_are_taken_as_they_are(x: ContentReply<String>)
    ensures
        match (x, x@) {
            (ContentReply::AppState(a0), ContentReply::AppState(b0)) => a0 == b0,
            (ContentReply::Entry(a0), ContentReply::Entry(b0)) => same_result(a0, b0),
            (ContentReply::Listing(a0), ContentReply::Listing(b0)) => same_result(a0, b0),
            _ => false,
        },
{
}

/// A request of an attempt to open a repository is taken as it is.
pub proof fn requests_of_openings_are_taken_as_they_are(x: OpenAction<String>)
    ensures
        match (x, x@) {
            (OpenAction::FindAppState, OpenAction::FindAppState) => true,
            (OpenAction::CheckConnection(a0), OpenAction::CheckConnection(b0)) => a0 == b0,
            (OpenAction::Connect(a0), OpenAction::Connect(b0)) => a0 == b0,
            (OpenAction::CreateRemoteProject, OpenAction::CreateRemoteProject) => true,
            (OpenAction::CreateLocalProject, OpenAction::CreateLocalProject) => true,
            (OpenAction::AddWorktree { path: a0 }, OpenAction::AddWorktree { path: b0 }) => a0@ == b0,
            (OpenAction::AwaitScan, OpenAction::AwaitScan) => true,
            (OpenAction::ListRepositories, OpenAction::ListRepositories) => true,
            (OpenAction::AwaitBarrier(a0), OpenAction::AwaitBarrier(b0)) => a0 == b0,
            (OpenAction::Finish, OpenAction::Finish) => true,
            _ => false,
        },
{
}

/// An answer to an attempt to open a repository is taken as it is.
pub proof fn answers_to_openings_are_taken_as_they_are(x: OpenReply<String, Vec<RepositoryEntry>>)
    ensures
        match (x, x@) {
            (OpenReply::AppState(a0), OpenReply::AppState(b0)) => a0 == b0,
            (OpenReply::Active(a0), OpenReply::Active(b0)) => a0 == b0,
            (OpenReply::Connected(a0), OpenReply::Connected(b0)) => same_result(a0, b0),
            (OpenReply::ProjectCreated, OpenReply::ProjectCreated) => true,
            (OpenReply::WorktreeAdded(a0), OpenReply::WorktreeAdded(b0)) => same_result(a0, b0),
            (OpenReply::Scanned, OpenReply::Scanned) => true,
            (OpenReply::Repositories(a0), OpenReply::Repositories(b0)) => a0@ == b0,
            (OpenReply::Ready(a0), OpenReply::Ready(b0)) => a0 == b0,
            _ => false,
        },
{
}

/// A request of the deletion of a record is taken as it is.
pub proof fn requests_of_deletions_are_taken_as_they_are(x: RecordAction<String>)
    ensures
        match (x, x@) {
            (RecordAction::OpenRepository { path: a0, connection: a1 }, RecordAction::OpenRepository { path: b0, connection: b1 }) => a0@ == b0 && a1 == b1,
            (RecordAction::DeleteRef { name: a0 }, RecordAction::DeleteRef { name: b0 }) => a0@ == b0,
            (RecordAction::DeleteRecord { id: a0 }, RecordAction::DeleteRecord { id: b0 }) => a0 == b0,
            (RecordAction::Finish, RecordAction::Finish) => true,
            _ => false,
        },
{
}

/// A request of a saving is taken as it is.
pub proof fn requests_of_savings_are_taken_as_they_are(x: PersistAction<String>)
    ensures
        match (x, x@) {
            (PersistAction::ReadHead { repository: a0 }, PersistAction::ReadHead { repository: b0 }) => a0 == b0,
            (PersistAction::CreateCheckpoint { repository: a0 }, PersistAction::CreateCheckpoint { repository: b0 }) => a0 == b0,
            (PersistAction::ReadBranch { repository: a0 }, PersistAction::ReadBranch { repository: b0 }) => a0 == b0,
            (PersistAction::CreateRecord { worktree_path: a0, main_repo_path: a1, branch_name: a2, staged: a3, unstaged: a4, original: a5 }, PersistAction::CreateRecord { worktree_path: b0, main_repo_path: b1, branch_name: b2, staged: b3, unstaged: b4, original: b5 }) => a0@ == b0 && a1@ == b1 && same_option(a2, b2) && a3@ == b3 && a4@ == b4 && a5@ == b5,
            (PersistAction::ListThreads, PersistAction::ListThreads) => true,
            (PersistAction::LinkThread { thread: a0, id: a1 }, PersistAction::LinkThread { thread: b0, id: b1 }) => a0 == b0 && a1 == b1,
            (PersistAction::DeleteRecord { id: a0 }, PersistAction::DeleteRecord { id: b0 }) => a0 == b0,
            (PersistAction::OpenRepository { path: a0, connection: a1 }, PersistAction::OpenRepository { path: b0, connection: b1 }) => a0@ == b0 && a1 == b1,
            (PersistAction::UpdateRef { name: a0, commit: a1 }, PersistAction::UpdateRef { name: b0, commit: b1 }) => a0@ == b0 && a1@ == b1,
            (PersistAction::Finish, PersistAction::Finish) => true,
            _ => false,
        },
{
}

/// An answer to a saving is taken as it is.
pub proof fn answers_to_savings_are_taken_as_they_are(x: PersistReply<String, Vec<ThreadEntry>>)
    ensures
        match (x, x@) {
            (PersistReply::Head(a0), PersistReply::Head(b0)) => a0@ == b0,
            (PersistReply::Checkpoint(a0), PersistReply::Checkpoint(b0)) => same_checkpoint(a0, b0),
            (PersistReply::Branch(a0), PersistReply::Branch(b0)) => same_option(a0, b0),
            (PersistReply::Record(a0), PersistReply::Record(b0)) => same_result(a0, b0),
            (PersistReply::Threads(a0), PersistReply::Threads(b0)) => a0@ == b0,
            (PersistReply::Linked(a0), PersistReply::Linked(b0)) => same_result(a0, b0),
            (PersistReply::RecordDeleted, PersistReply::RecordDeleted) => true,
            (PersistReply::Opened(a0), PersistReply::Opened(b0)) => same_opening(a0, b0),
            (PersistReply::RefUpdated(a0), PersistReply::RefUpdated(b0)) => a0@ == b0,
            _ => false,
        },
{
}

/// A request of a removal is taken as it is.
pub proof fn requests_of_removals_are_taken_as_they_are(x: RemoveAction<String>)
    ensures
        match (x, x@) {
            (RemoveAction::Detach(a0), RemoveAction::Detach(b0)) => a0 == b0,
            (RemoveAction::AwaitRelease(a0), RemoveAction::AwaitRelease(b0)) => a0 == b0,
            (RemoveAction::OpenRepository { path: a0, connection: a1 }, RemoveAction::OpenRepository { path: b0, connection: b1 }) => a0@ == b0 && a1 == b1,
            (RemoveAction::RemoveWorktree { path: a0 }, RemoveAction::RemoveWorktree { path: b0 }) => a0@ == b0,
            (RemoveAction::ReAdd { project: a0, path: a1 }, RemoveAction::ReAdd { project: b0, path: b1 }) => a0 == b0 && a1@ == b1,
            (RemoveAction::Finish, RemoveAction::Finish) => true,
            _ => false,
        },
{
}

/// An answer to a removal is taken as it is.
pub proof fn answers_to_removals_are_taken_as_they_are(x: RemoveReply<String>)
    ensures
        match (x, x@) {
            (RemoveReply::Detached, RemoveReply::Detached) => true,
            (RemoveReply::Released, RemoveReply::Released) => true,
            (RemoveReply::Opened(a0), RemoveReply::Opened(b0)) => same_opening(a0, b0),
            (RemoveReply::Removed(a0), RemoveReply::Removed(b0)) => a0@ == b0,
            (RemoveReply::ReAdded, RemoveReply::ReAdded) => true,
            _ => false,
        },
{
}

/// A request of a restore is taken as it is.
pub proof fn requests_of_restores_are_taken_as_they_are(x: RestoreAction<String>)
    ensures
        match (x, x@) {
            (RestoreAction::FindAppState, RestoreAction::FindAppState) => true,
            (RestoreAction::OpenRepository { role: a0, path: a1 }, RestoreAction::OpenRepository { role: b0, path: b1 }) => a0 == b0 && a1@ == b1,
            (RestoreAction::ReadEntry { path: a0 }, RestoreAction::ReadEntry { path: b0 }) => a0@ == b0,
            (RestoreAction::ReadDirectory { path: a0 }, RestoreAction::ReadDirectory { path: b0 }) => a0@ == b0,
            (RestoreAction::DrawToken, RestoreAction::DrawToken) => true,
            (RestoreAction::CreateBackupDirectory { dir: a0 }, RestoreAction::CreateBackupDirectory { dir: b0 }) => a0@ == b0,
            (RestoreAction::MoveAside { from: a0, to: a1 }, RestoreAction::MoveAside { from: b0, to: b1 }) => a0@ == b0 && a1@ == b1,
            (RestoreAction::RemoveWorktree { path: a0 }, RestoreAction::RemoveWorktree { path: b0 }) => a0@ == b0,
            (RestoreAction::CreateWorktree { path: a0, commit: a1 }, RestoreAction::CreateWorktree { path: b0, commit: b1 }) => a0@ == b0 && a1@ == b1,
            (RestoreAction::ChangeBranch { branch: a0 }, RestoreAction::ChangeBranch { branch: b0 }) => a0@ == b0,
            (RestoreAction::ReadHead, RestoreAction::ReadHead) => true,
            (RestoreAction::Detach { commit: a0, path: a1 }, RestoreAction::Detach { commit: b0, path: b1 }) => a0@ == b0 && a1@ == b1,
            (RestoreAction::CreateBranch { branch: a0 }, RestoreAction::CreateBranch { branch: b0 }) => a0@ == b0,
            (RestoreAction::RestoreCheckpoint { staged: a0, unstaged: a1 }, RestoreAction::RestoreCheckpoint { staged: b0, unstaged: b1 }) => a0@ == b0 && a1@ == b1,
            (RestoreAction::ClearDirectory { path: a0 }, RestoreAction::ClearDirectory { path: b0 }) => a0@ == b0,
            (RestoreAction::MoveBack { from: a0, to: a1 }, RestoreAction::MoveBack { from: b0, to: b1 }) => a0@ == b0 && a1@ == b1,
            (RestoreAction::DropBackup { dir: a0 }, RestoreAction::DropBackup { dir: b0 }) => a0@ == b0,
            (RestoreAction::Report(a0), RestoreAction::Report(b0)) => a0@ == b0,
            (RestoreAction::Finish, RestoreAction::Finish) => true,
            _ => false,
        },
{
}

/// An answer to a restore is taken as it is.
pub proof fn answers_to_restores_are_taken_as_they_are(x: RestoreReply<String>)
    ensures
        match (x, x@) {
            (RestoreReply::AppState(a0), RestoreReply::AppState(b0)) => a0 == b0,
            (RestoreReply::Opened(a0), RestoreReply::Opened(b0)) => same_opening(a0, b0),
            (RestoreReply::Entry(a0), RestoreReply::Entry(b0)) => same_result(a0, b0),
            (RestoreReply::Listing(a0), RestoreReply::Listing(b0)) => same_result(a0, b0),
            (RestoreReply::Token(a0), RestoreReply::Token(b0)) => a0@ == b0,
            (RestoreReply::Files(a0), RestoreReply::Files(b0)) => same_result(a0, b0),
            (RestoreReply::Git(a0), RestoreReply::Git(b0)) => a0@ == b0,
            (RestoreReply::Head(a0), RestoreReply::Head(b0)) => a0@ == b0,
            (RestoreReply::Reported, RestoreReply::Reported) => true,
            _ => false,
        },
{
}

/// A request of a cleanup is taken as it is.
pub proof fn requests_of_cleanups_are_taken_as_they_are(x: CleanupAction<ArchivedGitWorktree<String>>)
    ensures
        match (x, x@) {
            (CleanupAction::FindConnection(a0), CleanupAction::FindConnection(b0)) => a0 == b0,
            (CleanupAction::FetchRecords(a0), CleanupAction::FetchRecords(b0)) => a0 == b0,
            (CleanupAction::UnlinkThread(a0), CleanupAction::UnlinkThread(b0)) => a0 == b0,
            (CleanupAction::CheckReferenced { id: a0 }, CleanupAction::CheckReferenced { id: b0 }) => a0 == b0,
            (CleanupAction::CleanUpRecord { row: a0, connection: a1 }, CleanupAction::CleanUpRecord { row: b0, connection: b1 }) => a0@ == b0 && a1 == b1,
            (CleanupAction::Finish, CleanupAction::Finish) => true,
            _ => false,
        },
{
}

/// An answer to a cleanup is taken as it is, and of the fetched records each in
/// its place.
pub proof fn answers_to_cleanups_are_taken_as_they_are(
    x: CleanupReply<Vec<ArchivedGitWorktree<String>>>,
)
    ensures
        match (x, x@) {
            (CleanupReply::Connection(a), CleanupReply::Connection(b)) => a == b,
            (CleanupReply::Records(Some(a)), CleanupReply::Records(Some(b))) => a@.len() == b.len()
                && forall|i: int| 0 <= i < b.len() ==> #[trigger] b[i] == a@[i]@,
            (CleanupReply::Records(None), CleanupReply::Records(None)) => true,
            (CleanupReply::Unlinked(a), CleanupReply::Unlinked(b)) => a == b,
            (CleanupReply::Referenced(a), CleanupReply::Referenced(b)) => a == b,
            (CleanupReply::CleanedUp, CleanupReply::CleanedUp) => true,
            _ => false,
        },
{
}

} // verus!
