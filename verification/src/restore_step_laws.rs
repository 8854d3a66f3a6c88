//! What a restore asks for, answer by answer.
use vstd::prelude::*;

#[allow(unused_imports)]
use crate::backup::{backup_at, TempDir};
use crate::error::ArchiveError;
#[allow(unused_imports)]
use crate::model::{ArchivedGitWorktree, EntryKind, Outcome, OverwritePolicy};
use crate::restore::RestoreWorktree;
#[allow(unused_imports)]
use crate::restore::{
    rollback_reason, says_unregistered, Alert, RepositoryRole, RestoreAction, RestorePhase,
    RestoreReply,
};
#[allow(unused_imports)]
use crate::text_laws::{
    only_phrases_that_stand_there_are_found, phrases_are_found_wherever_they_stand,
};

verus! {

/// A restore, in contracts.
pub type Restore = RestoreWorktree<Seq<char>>;

/// Whether the restore has ended with `error`.
pub open spec fn failed_for(restore: Restore, error: ArchiveError<Seq<char>>) -> bool {
    restore.pending() is Finish && restore.outcome() == Some(
        Err::<Seq<char>, ArchiveError<Seq<char>>>(error),
    )
}

/// Whether the restore has ended well, with the path of the worktree.
pub open spec fn restored(restore: Restore, path: Seq<char>) -> bool {
    restore.pending() is Finish && restore.outcome() == Some(
        Ok::<Seq<char>, ArchiveError<Seq<char>>>(path),
    )
}

/// Whether the restore now asks for `action`, and has kept what it knew.
pub open spec fn asks(
    now: Restore,
    before: Restore,
    action: RestoreAction<Seq<char>>,
) -> bool {
    &&& now.pending() == action
    &&& now.outcome() is None
    &&& now.row == before.row
    &&& now.temp == before.temp
    &&& now.token == before.token
    &&& now.moved == before.moved
}

/// A restore asks for the application state and then for the main repository
/// of the record, and fails without either of them. Then it looks at the
/// worktree path. Where nothing is there, nothing is moved.
pub proof fn restores_look_at_the_path_first(
    row: ArchivedGitWorktree<Seq<char>>,
    policy: OverwritePolicy,
    temp: TempDir<Seq<char>>,
    error: ArchiveError<Seq<char>>,
    cause: Seq<char>,
)
    ensures
        ({
            let path = row.worktree_path;
            let start = RestoreWorktree::starting(row, false, policy, temp);
            let known = start.next(RestoreReply::AppState(true));
            let opened = known.next(RestoreReply::Opened(Ok(())));
            let vacant = opened.next(RestoreReply::Entry(Ok(None)));
            &&& start.row == row && start.temp == temp && start.policy == policy && !start.moved
            &&& asks(start, start, RestoreAction::FindAppState)
            &&& failed_for(start.next(RestoreReply::AppState(false)), ArchiveError::NoAppState)
            &&& asks(
                known,
                start,
                RestoreAction::OpenRepository {
                    role: RepositoryRole::Main,
                    path: row.main_repo_path,
                },
            )
            &&& failed_for(known.next(RestoreReply::Opened(Err(error))), error)
            &&& asks(opened, start, RestoreAction::ReadEntry { path })
            &&& opened.phase is Probing && opened.policy == policy
            &&& failed_for(
                opened.next(RestoreReply::Entry(Err(cause))),
                ArchiveError::Host(cause),
            )
            &&& asks(vacant, start, RestoreAction::RemoveWorktree { path })
            &&& vacant.phase is Unregistering
        }),
{
}

/// A restore that finds something at the worktree path moves it aside if it
/// may overwrite. If it may not, it looks again: it moves aside what is no
/// content, and fails at a file, a symbolic link, or a directory that has an
/// entry.
pub proof fn restores_refuse_just_the_content_that_they_may_not_overwrite(
    probing: Restore,
    kind: EntryKind,
    again: EntryKind,
    cause: Seq<char>,
)
    requires
        probing.phase is Probing,
    ensures
        ({
            let path = probing.row.worktree_path;
            let found = probing.next(RestoreReply::Entry(Ok(Some(kind))));
            let seen = found.next(RestoreReply::Entry(Ok(Some(again))));
            let refusal = ArchiveError::ExistingContent { path };
            &&& probing.policy is Overwrite ==> asks(found, probing, RestoreAction::DrawToken)
            &&& probing.policy is Refuse ==> {
                &&& asks(found, probing, RestoreAction::ReadEntry { path })
                &&& failed_for(
                    found.next(RestoreReply::Entry(Err(cause))),
                    ArchiveError::Host(cause),
                )
                &&& asks(
                    found.next(RestoreReply::Entry(Ok(None))),
                    probing,
                    RestoreAction::DrawToken,
                )
                &&& again.is_symlink || !again.is_dir ==> failed_for(seen, refusal)
                &&& again.is_dir && !again.is_symlink ==> {
                    &&& asks(seen, probing, RestoreAction::ReadDirectory { path })
                    &&& failed_for(seen.next(RestoreReply::Listing(Ok(true))), refusal)
                    &&& asks(
                        seen.next(RestoreReply::Listing(Ok(false))),
                        probing,
                        RestoreAction::DrawToken,
                    )
                    &&& failed_for(
                        seen.next(RestoreReply::Listing(Err(cause))),
                        ArchiveError::Host(cause),
                    )
                }
            }
        }),
{
}

/// A restore that has drawn a token makes the directory of that token's backup,
/// moves what is at the worktree path into it, and goes on only then. If
/// either fails, so does the restore, and nothing was touched.
pub proof fn restores_move_content_into_the_backup_of_their_token(
    naming: Restore,
    token: Seq<char>,
    cause: Seq<char>,
)
    requires
        naming.pending() is DrawToken,
    ensures
        ({
            let path = naming.row.worktree_path;
            let backup = backup_at(naming.temp, token);
            let named = naming.next(RestoreReply::Token(token));
            let made = named.next(RestoreReply::Files(Ok(())));
            let moved = made.next(RestoreReply::Files(Ok(())));
            &&& named.pending() == (RestoreAction::CreateBackupDirectory { dir: backup.dir })
            &&& failed_for(
                named.next(RestoreReply::Files(Err(cause))),
                ArchiveError::BackupDirectory { dir: backup.dir, cause },
            )
            &&& made.pending() == (RestoreAction::MoveAside { from: path, to: backup.target })
            &&& failed_for(
                made.next(RestoreReply::Files(Err(cause))),
                ArchiveError::MoveAside { path, target: backup.target, cause },
            )
            &&& moved.pending() == (RestoreAction::RemoveWorktree { path })
            &&& moved.phase is Unregistering
            &&& moved.row == naming.row && moved.temp == naming.temp
            &&& moved.token == token && moved.moved
        }),
{
}

/// Whether a restore that fails for `error` turns to its backup: to move the
/// content back, if it has moved any, and otherwise it just ends.
pub open spec fn turns_back(now: Restore, before: Restore, error: ArchiveError<Seq<char>>) -> bool {
    if before.moved {
        asks(now, before, RestoreAction::ReadEntry { path: before.row.worktree_path })
            && now.phase == RestorePhase::RollbackProbing(error)
    } else {
        failed_for(now, error)
    }
}

/// Whether a restore that fails for `error` first removes the worktree that it
/// was about to set up, whatever comes of that, and then turns back.
pub open spec fn discards(now: Restore, before: Restore, error: ArchiveError<Seq<char>>) -> bool {
    &&& asks(now, before, RestoreAction::RemoveWorktree { path: before.row.worktree_path })
    &&& forall|outcome: Outcome<(), Seq<char>>|
        turns_back(#[trigger] now.next(RestoreReply::Git(outcome)), before, error)
}

/// A stale registration that is removed, or that there was none of, lets the
/// worktree be created at the commit of the record. What the message has to
/// say for that is that the path is not a working tree, or that there is no
/// worktree, wherever in it that stands.
pub proof fn restores_go_on_where_nothing_was_registered(
    unregistering: Restore,
    before: Seq<char>,
    behind: Seq<char>,
)
    requires
        unregistering.phase is Unregistering,
    ensures
        ({
            let row = unregistering.row;
            let creating = RestoreAction::CreateWorktree {
                path: row.worktree_path,
                commit: row.original_commit_hash,
            };
            let no_tree = before + "not a working tree"@ + behind;
            let no_worktree = before + "no worktree"@ + behind;
            &&& asks(
                unregistering.next(RestoreReply::Git(Outcome::Done(()))),
                unregistering,
                creating,
            )
            &&& asks(
                unregistering.next(RestoreReply::Git(Outcome::Failed(no_tree))),
                unregistering,
                creating,
            )
            &&& asks(
                unregistering.next(RestoreReply::Git(Outcome::Failed(no_worktree))),
                unregistering,
                creating,
            )
        }),
{
    phrases_are_found_wherever_they_stand(before, "not a working tree"@, behind);
    phrases_are_found_wherever_they_stand(before, "no worktree"@, behind);
}

/// Any other failure to remove a stale registration is the failure of the
/// restore, which then turns to its backup.
pub proof fn restores_turn_back_where_the_registration_stays(
    unregistering: Restore,
    cause: Seq<char>,
)
    requires
        unregistering.phase is Unregistering,
        forall|before: Seq<char>, behind: Seq<char>|
            cause != #[trigger] (before + "not a working tree"@ + behind),
        forall|before: Seq<char>, behind: Seq<char>|
            cause != #[trigger] (before + "no worktree"@ + behind),
    ensures
        ({
            let path = unregistering.row.worktree_path;
            &&& turns_back(
                unregistering.next(RestoreReply::Git(Outcome::Failed(cause))),
                unregistering,
                ArchiveError::StaleRegistration { path, cause },
            )
            &&& turns_back(
                unregistering.next(RestoreReply::Git(Outcome::Canceled)),
                unregistering,
                ArchiveError::StaleRegistration { path, cause: "worktree remove was canceled"@ },
            )
        }),
{
    if says_unregistered(cause) {
        if crate::text::occurs_in("not a working tree"@, cause) {
            only_phrases_that_stand_there_are_found("not a working tree"@, cause);
        } else {
            only_phrases_that_stand_there_are_found("no worktree"@, cause);
        }
    }
}

/// A worktree that was created is opened at its own path. One that could not
/// be created, or not be opened, is removed again, and the restore fails for
/// that reason.
pub proof fn restores_open_what_they_have_created(
    creating: Restore,
    error: ArchiveError<Seq<char>>,
    cause: Seq<char>,
)
    requires
        creating.pending() is CreateWorktree,
    ensures
        ({
            let path = creating.row.worktree_path;
            let created = creating.next(RestoreReply::Git(Outcome::Done(())));
            &&& asks(
                created,
                creating,
                RestoreAction::OpenRepository { role: RepositoryRole::Worktree, path },
            )
            &&& discards(
                creating.next(RestoreReply::Git(Outcome::Failed(cause))),
                creating,
                ArchiveError::WorktreeCreation { cause },
            )
            &&& discards(
                creating.next(RestoreReply::Git(Outcome::Canceled)),
                creating,
                ArchiveError::WorktreeCreationCanceled,
            )
            &&& discards(created.next(RestoreReply::Opened(Err(error))), creating, error)
        }),
{
}

/// The request that reads the two archived trees of the record back.
pub open spec fn reading_back(restore: Restore) -> RestoreAction<Seq<char>> {
    RestoreAction::RestoreCheckpoint {
        staged: restore.row.staged_commit_hash,
        unstaged: restore.row.unstaged_commit_hash,
    }
}

/// Once the worktree is open, its branch is checked out, if the record names
/// one; otherwise the archived trees are read back at once. A branch that
/// cannot be checked out is created instead, and whatever comes of that, the
/// trees are read back.
pub proof fn restores_check_out_or_create_the_branch(
    creating: Restore,
    cause: Seq<char>,
    outcome: Outcome<(), Seq<char>>,
)
    requires
        creating.pending() is CreateWorktree,
    ensures
        ({
            let created = creating.next(RestoreReply::Git(Outcome::Done(())));
            let opened = created.next(RestoreReply::Opened(Ok(())));
            match creating.row.branch_name {
                None => asks(opened, creating, reading_back(creating)),
                Some(branch) => {
                    let failed = opened.next(RestoreReply::Git(Outcome::Failed(cause)));
                    let canceled = opened.next(RestoreReply::Git(Outcome::Canceled));
                    &&& asks(opened, creating, RestoreAction::ChangeBranch { branch })
                    &&& asks(
                        opened.next(RestoreReply::Git(Outcome::Done(()))),
                        creating,
                        RestoreAction::ReadHead,
                    )
                    &&& asks(failed, creating, RestoreAction::CreateBranch { branch })
                    &&& asks(canceled, creating, RestoreAction::CreateBranch { branch })
                    &&& asks(
                        failed.next(RestoreReply::Git(outcome)),
                        creating,
                        reading_back(creating),
                    )
                },
            }
        }),
{
}

/// A branch whose HEAD is the archived commit is kept. One whose HEAD is any
/// other commit is left for the archived one, and whatever comes of that, the
/// trees are read back, as they are where HEAD is not known.
pub proof fn restores_leave_a_branch_that_has_moved(
    reading: Restore,
    head: Seq<char>,
    cause: Seq<char>,
    outcome: Outcome<(), Seq<char>>,
)
    requires
        reading.pending() is ReadHead,
    ensures
        ({
            let row = reading.row;
            let known = reading.next(RestoreReply::Head(Outcome::Done(Some(head))));
            let back = reading_back(reading);
            &&& head == row.original_commit_hash ==> asks(known, reading, back)
            &&& head != row.original_commit_hash ==> {
                &&& asks(
                    known,
                    reading,
                    RestoreAction::Detach {
                        commit: row.original_commit_hash,
                        path: row.worktree_path,
                    },
                )
                &&& asks(known.next(RestoreReply::Git(outcome)), reading, back)
            }
            &&& asks(reading.next(RestoreReply::Head(Outcome::Done(None))), reading, back)
            &&& asks(reading.next(RestoreReply::Head(Outcome::Failed(cause))), reading, back)
            &&& asks(reading.next(RestoreReply::Head(Outcome::Canceled)), reading, back)
        }),
{
}

/// Once the trees are read back, the restore has succeeded with the path of
/// the record, after its backup was dropped, if there is one, whatever comes of
/// that. Trees that cannot be read back have the worktree removed again.
pub proof fn restores_end_well_once_the_trees_are_back(
    restoring: Restore,
    cause: Seq<char>,
    result: Result<(), Seq<char>>,
)
    requires
        restoring.pending() is RestoreCheckpoint,
    ensures
        ({
            let path = restoring.row.worktree_path;
            let done = restoring.next(RestoreReply::Git(Outcome::Done(())));
            &&& !restoring.moved ==> restored(done, path)
            &&& restoring.moved ==> {
                &&& asks(
                    done,
                    restoring,
                    RestoreAction::DropBackup {
                        dir: backup_at(restoring.temp, restoring.token).dir,
                    },
                )
                &&& restored(done.next(RestoreReply::Files(result)), path)
            }
            &&& discards(
                restoring.next(RestoreReply::Git(Outcome::Failed(cause))),
                restoring,
                ArchiveError::RestoreCheckpoint { cause },
            )
            &&& discards(
                restoring.next(RestoreReply::Git(Outcome::Canceled)),
                restoring,
                ArchiveError::RestoreCheckpoint { cause: "restore_archive_checkpoint canceled"@ },
            )
        }),
{
}

/// Whether the restore now reports `alert`, and then ends with `error`.
pub open spec fn reports(
    now: Restore,
    error: ArchiveError<Seq<char>>,
    alert: Alert<Seq<char>>,
) -> bool {
    now.pending() == RestoreAction::Report(alert) && failed_for(
        now.next(RestoreReply::Reported),
        error,
    )
}

/// Whether the restore now moves the content back from its backup to the
/// worktree path. Then it drops the backup, whatever comes of that, and ends
/// with `error`. If the content cannot be moved back, that is reported, with
/// the place where it is and the reason.
pub open spec fn moves_back(now: Restore, before: Restore, error: ArchiveError<Seq<char>>) -> bool {
    let path = before.row.worktree_path;
    let backup = backup_at(before.temp, before.token);
    let back = now.next(RestoreReply::Files(Ok(())));
    &&& asks(now, before, RestoreAction::MoveBack { from: backup.target, to: path })
    &&& asks(back, before, RestoreAction::DropBackup { dir: backup.dir })
    &&& forall|result: Result<(), Seq<char>>|
        failed_for(#[trigger] back.next(RestoreReply::Files(result)), error)
    &&& forall|failure: Seq<char>|
        reports(
            #[trigger] now.next(RestoreReply::Files(Err(failure))),
            error,
            Alert::MoveBackFailed {
                path,
                cause: rollback_reason(error),
                kept_at: backup.target,
                failure,
            },
        )
}

/// A rollback moves the content back where nothing is known to stand at the
/// worktree path, and where an empty directory stands there, once that was to
/// be cleared. Anything else is left alone: it is reported, with the place where
/// the content is, and the backup stays.
pub proof fn rollbacks_give_way_to_nothing_but_an_empty_directory(
    failing: Restore,
    error: ArchiveError<Seq<char>>,
    kind: EntryKind,
    cause: Seq<char>,
    result: Result<(), Seq<char>>,
)
    requires
        failing.phase == RestorePhase::RollbackProbing(error),
    ensures
        ({
            let path = failing.row.worktree_path;
            let blocked = Alert::UnexpectedContent {
                path,
                cause: rollback_reason(error),
                kept_at: backup_at(failing.temp, failing.token).target,
            };
            let seen = failing.next(RestoreReply::Entry(Ok(Some(kind))));
            let clearing = seen.next(RestoreReply::Listing(Ok(false)));
            &&& failing.pending() == (RestoreAction::ReadEntry { path })
            &&& moves_back(failing.next(RestoreReply::Entry(Ok(None))), failing, error)
            &&& moves_back(failing.next(RestoreReply::Entry(Err(cause))), failing, error)
            &&& !kind.is_dir ==> reports(seen, error, blocked)
            &&& kind.is_dir ==> {
                &&& asks(seen, failing, RestoreAction::ReadDirectory { path })
                &&& reports(seen.next(RestoreReply::Listing(Ok(true))), error, blocked)
                &&& reports(seen.next(RestoreReply::Listing(Err(cause))), error, blocked)
                &&& asks(clearing, failing, RestoreAction::ClearDirectory { path })
                &&& moves_back(clearing.next(RestoreReply::Files(result)), failing, error)
            }
        }),
{
}

} // verus!
