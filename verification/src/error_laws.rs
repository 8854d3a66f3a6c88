//! What the messages of failures say.
use vstd::prelude::*;

#[allow(unused_imports)]
use crate::error::ArchiveError;
#[allow(unused_imports)]
use crate::restore::{rollback_reason, Alert};

verus! {

/// A failure that was reported from outside is passed on word for word, and
/// one without a cause has a message of its own.
pub proof fn messages_without_a_cause_are_fixed(cause: Seq<char>, path: Seq<char>)
    ensures
        ArchiveError::Host(cause).text() == cause,
        ArchiveError::<Seq<char>>::RemoteRestoreUnsupported.text()
            == "restoring archived worktrees on remote machines is not yet supported"@,
        ArchiveError::<Seq<char>>::NoAppState.text() == "no app state available"@,
        ArchiveError::<Seq<char>>::NoAppStateForTemporaryProject.text()
            == "no app state available for temporary project"@,
        ArchiveError::<Seq<char>>::RemoteDisconnected.text()
            == "cannot open repository on disconnected remote machine"@,
        ArchiveError::<Seq<char>>::RemoteConnectionCanceled.text()
            == "remote connection was canceled"@,
        ArchiveError::<Seq<char>>::TemporaryRepositoryUnresolved.text()
            == "failed to resolve temporary repository handle"@,
        ArchiveError::<Seq<char>>::TemporaryRepositoryBarrierCanceled.text()
            == "temporary repository barrier canceled"@,
        (ArchiveError::ExistingContent { path }).text() == "worktree path '"@ + path
            + "' has existing content; use OverwritePolicy::Overwrite to proceed"@,
        ArchiveError::<Seq<char>>::WorktreeCreationCanceled.text()
            == "worktree creation was canceled"@,
        ArchiveError::<Seq<char>>::MetadataCleanupCanceled.text()
            == "git worktree metadata cleanup was canceled"@,
        ArchiveError::<Seq<char>>::HeadCanceled.text() == "head_sha canceled"@,
        ArchiveError::<Seq<char>>::HeadMissing.text() == "HEAD SHA is None"@,
        ArchiveError::<Seq<char>>::CheckpointCanceled.text()
            == "create_archive_checkpoint canceled"@,
{
}

/// A failure with a cause says what was being done, and to what, and ends in a
/// colon and the whole cause.
pub proof fn messages_end_in_their_cause(
    cause: Seq<char>,
    path: Seq<char>,
    target: Seq<char>,
    dir: Seq<char>,
    name: Seq<char>,
)
    ensures
        (ArchiveError::BackupDirectory { dir, cause }).text()
            == "failed to create backup directory '"@ + dir + "'"@ + ": "@ + cause,
        (ArchiveError::MoveAside { path, target, cause }).text()
            == "failed to move existing path '"@ + path + "' to backup '"@ + target + "'"@ + ": "@
            + cause,
        (ArchiveError::StaleRegistration { path, cause }).text()
            == "failed to remove stale worktree registration for '"@ + path + "'"@ + ": "@ + cause,
        (ArchiveError::WorktreeCreation { cause }).text() == "failed to create worktree"@ + ": "@
            + cause,
        (ArchiveError::RestoreCheckpoint { cause }).text()
            == "failed to restore archive checkpoint"@ + ": "@ + cause,
        (ArchiveError::MetadataCleanup { cause }).text()
            == "git worktree metadata cleanup failed"@ + ": "@ + cause,
        (ArchiveError::HeadUnreadable { cause }).text() == "failed to read original HEAD SHA"@
            + ": "@ + cause,
        (ArchiveError::CheckpointFailed { cause }).text() == "failed to create archive checkpoint"@
            + ": "@ + cause,
        (ArchiveError::RecordCreation { cause }).text()
            == "failed to create archived worktree DB record"@ + ": "@ + cause,
        (ArchiveError::ThreadLink { cause }).text()
            == "failed to link thread to archived worktree"@ + ": "@ + cause,
        (ArchiveError::MainRepository { cause }).text()
            == "could not open main repo to create archive ref"@ + ": "@ + cause,
        (ArchiveError::RefCreation { name, cause }).text() == "failed to create ref "@ + name
            + " on main repo"@ + ": "@ + cause,
{
}

/// An alert names the path, the whole reason for which the restore failed, and
/// the place where the content is; and, where the move back failed, why.
pub proof fn alerts_say_where_the_content_is(
    path: Seq<char>,
    cause: Seq<char>,
    kept_at: Seq<char>,
    failure: Seq<char>,
)
    ensures
        (Alert::UnexpectedContent { path, cause, kept_at }).text() == "cannot rollback: '"@ + path
            + "' has unexpected content after restore failure; original error: "@ + cause
            + "; user's pre-existing content remains at '"@ + kept_at + "' for manual recovery"@,
        (Alert::MoveBackFailed { path, cause, kept_at, failure }).text()
            == "failed to restore backup '"@ + kept_at + "' to '"@ + path
            + "' after restore error: "@ + failure + "; original restore error: "@ + cause
            + "; user content remains at '"@ + kept_at + "' for manual recovery"@,
        (Alert::UnexpectedContent { path, cause, kept_at }).kept_at() == kept_at,
        (Alert::UnexpectedContent { path, cause, kept_at }).cause() == cause,
        (Alert::MoveBackFailed { path, cause, kept_at, failure }).kept_at() == kept_at,
        (Alert::MoveBackFailed { path, cause, kept_at, failure }).cause() == cause,
{
}

/// The reason that a rollback names is the whole message of the failure, but
/// for a stale registration, of which it names the cause alone.
pub proof fn rollbacks_name_the_failure(error: ArchiveError<Seq<char>>)
    ensures
        error matches ArchiveError::StaleRegistration { cause, .. } ==> rollback_reason(error)
            == cause,
        !(error is StaleRegistration) ==> rollback_reason(error) == error.text(),
{
}

} // verus!
