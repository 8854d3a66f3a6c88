//! Why an archive, removal or restore did not go through.
use vstd::prelude::*;

verus! {

/// The reason for which an operation of the archive failed.
///
/// `S` is `String` in running code and `Seq<char>` in contracts. A `cause` is
/// the full text of the failure that the environment reported.
#[derive(Debug, PartialEq, Eq)]
pub enum ArchiveError<S> {
    /// The environment reported a failure that is passed on as it is.
    Host(S),
    /// Worktrees on remote machines cannot be restored.
    RemoteRestoreUnsupported,
    /// No workspace is open from which the application state could be had.
    NoAppState,
    /// The same, while a temporary project was wanted.
    NoAppStateForTemporaryProject,
    /// The repository lives on a machine that is not connected.
    RemoteDisconnected,
    /// The user canceled the connection to the remote machine.
    RemoteConnectionCanceled,
    /// The temporary project does not hold the repository it was made for.
    TemporaryRepositoryUnresolved,
    /// The temporary repository went away before it was ready.
    TemporaryRepositoryBarrierCanceled,
    /// Content would be overwritten, and the policy refuses that.
    ExistingContent { path: S },
    /// The directory for the backup could not be made.
    BackupDirectory { dir: S, cause: S },
    /// The existing content could not be moved to the backup.
    MoveAside { path: S, target: S, cause: S },
    /// A stale registration of the worktree could not be removed.
    StaleRegistration { path: S, cause: S },
    /// `git worktree add` failed.
    WorktreeCreation { cause: S },
    /// `git worktree add` was canceled.
    WorktreeCreationCanceled,
    /// The archived trees could not be read back into the worktree.
    RestoreCheckpoint { cause: S },
    /// `git worktree remove` was canceled.
    MetadataCleanupCanceled,
    /// `git worktree remove` failed.
    MetadataCleanup { cause: S },
    /// Reading HEAD was canceled.
    HeadCanceled,
    /// Reading HEAD failed.
    HeadUnreadable { cause: S },
    /// HEAD points at no commit.
    HeadMissing,
    /// Writing the checkpoint commits was canceled.
    CheckpointCanceled,
    /// Writing the checkpoint commits failed.
    CheckpointFailed { cause: S },
    /// The archive record could not be written.
    RecordCreation { cause: S },
    /// A thread could not be linked to the archive record.
    ThreadLink { cause: S },
    /// The main repository could not be opened for writing the archive ref.
    MainRepository { cause: S },
    /// The archive ref could not be written.
    RefCreation { name: S, cause: S },
}

impl View for ArchiveError<String> {
    type V = ArchiveError<Seq<char>>;

    open spec fn view(&self) -> ArchiveError<Seq<char>> {
        match self {
            ArchiveError::Host(cause) => ArchiveError::Host(cause@),
            ArchiveError::RemoteRestoreUnsupported => ArchiveError::RemoteRestoreUnsupported,
            ArchiveError::NoAppState => ArchiveError::NoAppState,
            ArchiveError::NoAppStateForTemporaryProject => ArchiveError::NoAppStateForTemporaryProject,
            ArchiveError::RemoteDisconnected => ArchiveError::RemoteDisconnected,
            ArchiveError::RemoteConnectionCanceled => ArchiveError::RemoteConnectionCanceled,
            ArchiveError::TemporaryRepositoryUnresolved => ArchiveError::TemporaryRepositoryUnresolved,
            ArchiveError::TemporaryRepositoryBarrierCanceled =>
                ArchiveError::TemporaryRepositoryBarrierCanceled,
            ArchiveError::ExistingContent { path } => ArchiveError::ExistingContent { path: path@ },
            ArchiveError::BackupDirectory { dir, cause } =>
                ArchiveError::BackupDirectory { dir: dir@, cause: cause@ },
            ArchiveError::MoveAside { path, target, cause } =>
                ArchiveError::MoveAside { path: path@, target: target@, cause: cause@ },
            ArchiveError::StaleRegistration { path, cause } =>
                ArchiveError::StaleRegistration { path: path@, cause: cause@ },
            ArchiveError::WorktreeCreation { cause } =>
                ArchiveError::WorktreeCreation { cause: cause@ },
            ArchiveError::WorktreeCreationCanceled => ArchiveError::WorktreeCreationCanceled,
            ArchiveError::RestoreCheckpoint { cause } =>
                ArchiveError::RestoreCheckpoint { cause: cause@ },
            ArchiveError::MetadataCleanupCanceled => ArchiveError::MetadataCleanupCanceled,
            ArchiveError::MetadataCleanup { cause } =>
                ArchiveError::MetadataCleanup { cause: cause@ },
            ArchiveError::HeadCanceled => ArchiveError::HeadCanceled,
            ArchiveError::HeadUnreadable { cause } => ArchiveError::HeadUnreadable { cause: cause@ },
            ArchiveError::HeadMissing => ArchiveError::HeadMissing,
            ArchiveError::CheckpointCanceled => ArchiveError::CheckpointCanceled,
            ArchiveError::CheckpointFailed { cause } =>
                ArchiveError::CheckpointFailed { cause: cause@ },
            ArchiveError::RecordCreation { cause } => ArchiveError::RecordCreation { cause: cause@ },
            ArchiveError::ThreadLink { cause } => ArchiveError::ThreadLink { cause: cause@ },
            ArchiveError::MainRepository { cause } => ArchiveError::MainRepository { cause: cause@ },
            ArchiveError::RefCreation { name, cause } =>
                ArchiveError::RefCreation { name: name@, cause: cause@ },
        }
    }
}

/// What was being done, then a colon and the cause of its failure.
pub open spec fn because(doing: Seq<char>, cause: Seq<char>) -> Seq<char> {
    doing + ": "@ + cause
}

impl ArchiveError<Seq<char>> {
    /// The message shown to the user, from the outermost context to the cause.
    pub open spec fn text(self) -> Seq<char> {
        match self {
            ArchiveError::Host(cause) => cause,
            ArchiveError::RemoteRestoreUnsupported =>
                "restoring archived worktrees on remote machines is not yet supported"@,
            ArchiveError::NoAppState => "no app state available"@,
            ArchiveError::NoAppStateForTemporaryProject =>
                "no app state available for temporary project"@,
            ArchiveError::RemoteDisconnected =>
                "cannot open repository on disconnected remote machine"@,
            ArchiveError::RemoteConnectionCanceled => "remote connection was canceled"@,
            ArchiveError::TemporaryRepositoryUnresolved =>
                "failed to resolve temporary repository handle"@,
            ArchiveError::TemporaryRepositoryBarrierCanceled =>
                "temporary repository barrier canceled"@,
            ArchiveError::ExistingContent { path } => "worktree path '"@ + path
                + "' has existing content; use OverwritePolicy::Overwrite to proceed"@,
            ArchiveError::BackupDirectory { dir, cause } => because(
                "failed to create backup directory '"@ + dir + "'"@,
                cause,
            ),
            ArchiveError::MoveAside { path, target, cause } => because(
                "failed to move existing path '"@ + path + "' to backup '"@ + target + "'"@,
                cause,
            ),
            ArchiveError::StaleRegistration { path, cause } => because(
                "failed to remove stale worktree registration for '"@ + path + "'"@,
                cause,
            ),
            ArchiveError::WorktreeCreation { cause } => because("failed to create worktree"@, cause),
            ArchiveError::WorktreeCreationCanceled => "worktree creation was canceled"@,
            ArchiveError::RestoreCheckpoint { cause } => because(
                "failed to restore archive checkpoint"@,
                cause,
            ),
            ArchiveError::MetadataCleanupCanceled =>
                "git worktree metadata cleanup was canceled"@,
            ArchiveError::MetadataCleanup { cause } => because(
                "git worktree metadata cleanup failed"@,
                cause,
            ),
            ArchiveError::HeadCanceled => "head_sha canceled"@,
            ArchiveError::HeadUnreadable { cause } => because(
                "failed to read original HEAD SHA"@,
                cause,
            ),
            ArchiveError::HeadMissing => "HEAD SHA is None"@,
            ArchiveError::CheckpointCanceled => "create_archive_checkpoint canceled"@,
            ArchiveError::CheckpointFailed { cause } => because(
                "failed to create archive checkpoint"@,
                cause,
            ),
            ArchiveError::RecordCreation { cause } => because(
                "failed to create archived worktree DB record"@,
                cause,
            ),
            ArchiveError::ThreadLink { cause } => because(
                "failed to link thread to archived worktree"@,
                cause,
            ),
            ArchiveError::MainRepository { cause } => because(
                "could not open main repo to create archive ref"@,
                cause,
            ),
            ArchiveError::RefCreation { name, cause } => because(
                "failed to create ref "@ + name + " on main repo"@,
                cause,
            ),
        }
    }
}

/// Writes `doing`, a colon and `cause`.
fn because_text(doing: &str, cause: &str) -> (r: String)
    ensures
        r@ == because(doing@, cause@),
{
    let mut r = doing.to_owned();
    r.append(": ");
    r.append(cause);
    r
}

/// Writes `before`, `name` and `after` in one text.
pub(crate) fn around(before: &str, name: &str, after: &str) -> (r: String)
    ensures
        r@ == before@ + name@ + after@,
{
    let mut r = before.to_owned();
    r.append(name);
    r.append(after);
    r
}

impl ArchiveError<String> {
    /// The message shown to the user.
    pub fn message(&self) -> (r: String)
        ensures
            r@ == self@.text(),
    {
        match self {
            ArchiveError::Host(cause) => cause.clone(),
            ArchiveError::RemoteRestoreUnsupported =>
                "restoring archived worktrees on remote machines is not yet supported".to_owned(),
            ArchiveError::NoAppState => "no app state available".to_owned(),
            ArchiveError::NoAppStateForTemporaryProject =>
                "no app state available for temporary project".to_owned(),
            ArchiveError::RemoteDisconnected =>
                "cannot open repository on disconnected remote machine".to_owned(),
            ArchiveError::RemoteConnectionCanceled => "remote connection was canceled".to_owned(),
            ArchiveError::TemporaryRepositoryUnresolved =>
                "failed to resolve temporary repository handle".to_owned(),
            ArchiveError::TemporaryRepositoryBarrierCanceled =>
                "temporary repository barrier canceled".to_owned(),
            ArchiveError::ExistingContent { path } => around(
                "worktree path '",
                path,
                "' has existing content; use OverwritePolicy::Overwrite to proceed",
            ),
            ArchiveError::BackupDirectory { dir, cause } => because_text(
                &around("failed to create backup directory '", dir, "'"),
                cause,
            ),
            ArchiveError::MoveAside { path, target, cause } => {
                let mut doing = around("failed to move existing path '", path, "' to backup '");
                doing.append(target);
                doing.append("'");
                because_text(&doing, cause)
            },
            ArchiveError::StaleRegistration { path, cause } => because_text(
                &around("failed to remove stale worktree registration for '", path, "'"),
                cause,
            ),
            ArchiveError::WorktreeCreation { cause } => because_text(
                "failed to create worktree",
                cause,
            ),
            ArchiveError::WorktreeCreationCanceled => "worktree creation was canceled".to_owned(),
            ArchiveError::RestoreCheckpoint { cause } => because_text(
                "failed to restore archive checkpoint",
                cause,
            ),
            ArchiveError::MetadataCleanupCanceled =>
                "git worktree metadata cleanup was canceled".to_owned(),
            ArchiveError::MetadataCleanup { cause } => because_text(
                "git worktree metadata cleanup failed",
                cause,
            ),
            ArchiveError::HeadCanceled => "head_sha canceled".to_owned(),
            ArchiveError::HeadUnreadable { cause } => because_text(
                "failed to read original HEAD SHA",
                cause,
            ),
            ArchiveError::HeadMissing => "HEAD SHA is None".to_owned(),
            ArchiveError::CheckpointCanceled => "create_archive_checkpoint canceled".to_owned(),
            ArchiveError::CheckpointFailed { cause } => because_text(
                "failed to create archive checkpoint",
                cause,
            ),
            ArchiveError::RecordCreation { cause } => because_text(
                "failed to create archived worktree DB record",
                cause,
            ),
            ArchiveError::ThreadLink { cause } => because_text(
                "failed to link thread to archived worktree",
                cause,
            ),
            ArchiveError::MainRepository { cause } => because_text(
                "could not open main repo to create archive ref",
                cause,
            ),
            ArchiveError::RefCreation { name, cause } => because_text(
                &around("failed to create ref ", name, " on main repo"),
                cause,
            ),
        }
    }
}

} // verus!
