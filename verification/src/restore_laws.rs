//! What holds of every restore, whatever its environment answers.
use vstd::prelude::*;

#[allow(unused_imports)]
use crate::backup::{backup_at, TempDir};
#[allow(unused_imports)]
use crate::backup_laws::{backups_lie_in_their_own_directory, is_entry_of};
#[allow(unused_imports)]
use crate::content::{ContentCheck, ContentPhase, ContentReply};
#[allow(unused_imports)]
use crate::error::ArchiveError;
#[allow(unused_imports)]
use crate::model::{ArchivedGitWorktree, Outcome, OverwritePolicy};
#[allow(unused_imports)]
use crate::restore::{
    rollback_reason, RestoreAction, RestorePhase, RestoreReply, RestoreWorktree,
};
use crate::trace::Process;
#[allow(unused_imports)]
use crate::trace::{
    after, happened, happened_in_order, lemma_happened_in_order_last, lemma_happened_last,
    lemma_nothing_happened,
};

verus! {

impl Process for RestoreWorktree<Seq<char>> {
    type Request = RestoreAction<Seq<char>>;

    type Reply = RestoreReply<Seq<char>>;

    open spec fn awaits(self) -> RestoreAction<Seq<char>> {
        self.pending()
    }

    open spec fn advance(self, reply: RestoreReply<Seq<char>>) -> Self {
        self.next(reply)
    }
}

/// A test of a request and the answer to it.
pub type Exchange = spec_fn(RestoreAction<Seq<char>>, RestoreReply<Seq<char>>) -> bool;

/// Nothing was found at `path`.
pub open spec fn found_missing(path: Seq<char>) -> Exchange {
    |q: RestoreAction<Seq<char>>, r: RestoreReply<Seq<char>>|
        q == (RestoreAction::ReadEntry { path }) && r matches RestoreReply::Entry(Ok(None))
}

/// An entry was found at `path`.
pub open spec fn found_entry(path: Seq<char>) -> Exchange {
    |q: RestoreAction<Seq<char>>, r: RestoreReply<Seq<char>>|
        q == (RestoreAction::ReadEntry { path }) && r matches RestoreReply::Entry(Ok(Some(_)))
}

/// The directory at `path` was found to be empty.
pub open spec fn found_empty(path: Seq<char>) -> Exchange {
    |q: RestoreAction<Seq<char>>, r: RestoreReply<Seq<char>>|
        q == (RestoreAction::ReadDirectory { path }) && r matches RestoreReply::Listing(Ok(false))
}

/// What was at `path` was moved to `target`.
pub open spec fn moved_aside(path: Seq<char>, target: Seq<char>) -> Exchange {
    |q: RestoreAction<Seq<char>>, r: RestoreReply<Seq<char>>|
        q == (RestoreAction::MoveAside { from: path, to: target })
            && r matches RestoreReply::Files(Ok(_))
}

/// What was at `path` was moved somewhere else.
pub open spec fn moved_away(path: Seq<char>) -> Exchange {
    |q: RestoreAction<Seq<char>>, r: RestoreReply<Seq<char>>|
        {
            &&& q matches RestoreAction::MoveAside { from, .. }
            &&& from == path
            &&& r matches RestoreReply::Files(Ok(_))
        }
}

/// The token was drawn.
pub open spec fn drawn(token: Seq<char>) -> Exchange {
    |q: RestoreAction<Seq<char>>, r: RestoreReply<Seq<char>>|
        q is DrawToken && r == RestoreReply::Token(token)
}

/// What was at `target` was moved back to `path`.
pub open spec fn moved_back(path: Seq<char>, target: Seq<char>) -> Exchange {
    |q: RestoreAction<Seq<char>>, r: RestoreReply<Seq<char>>|
        q == (RestoreAction::MoveBack { from: target, to: path })
            && r matches RestoreReply::Files(Ok(_))
}

/// Something was moved back to `path`.
pub open spec fn given_back(path: Seq<char>) -> Exchange {
    |q: RestoreAction<Seq<char>>, r: RestoreReply<Seq<char>>|
        {
            &&& q matches RestoreAction::MoveBack { to, .. }
            &&& to == path
            &&& r matches RestoreReply::Files(Ok(_))
        }
}

/// It was reported that the content stays at `target`, because of `reason`.
pub open spec fn reported(target: Seq<char>, reason: Seq<char>) -> Exchange {
    |q: RestoreAction<Seq<char>>, r: RestoreReply<Seq<char>>|
        {
            &&& q matches RestoreAction::Report(alert)
            &&& alert.kept_at() == target
            &&& alert.cause() == reason
            &&& r is Reported
        }
}

/// The worktree was created at the commit that `row` names.
pub open spec fn created(row: ArchivedGitWorktree<Seq<char>>) -> Exchange {
    |q: RestoreAction<Seq<char>>, r: RestoreReply<Seq<char>>|
        q == (RestoreAction::CreateWorktree {
            path: row.worktree_path,
            commit: row.original_commit_hash,
        }) && r matches RestoreReply::Git(Outcome::Done(_))
}

/// It was tried to create the worktree, with or without success.
pub open spec fn creation_tried() -> Exchange {
    |q: RestoreAction<Seq<char>>, r: RestoreReply<Seq<char>>|
        q is CreateWorktree && r is Git
}

/// It was tried to remove the worktree at `path`.
pub open spec fn removal_tried(path: Seq<char>) -> Exchange {
    |q: RestoreAction<Seq<char>>, r: RestoreReply<Seq<char>>|
        q == (RestoreAction::RemoveWorktree { path }) && r is Git
}

/// The archived trees of `row` were read back.
pub open spec fn checkpoint_restored(row: ArchivedGitWorktree<Seq<char>>) -> Exchange {
    |q: RestoreAction<Seq<char>>, r: RestoreReply<Seq<char>>|
        q == (RestoreAction::RestoreCheckpoint {
            staged: row.staged_commit_hash,
            unstaged: row.unstaged_commit_hash,
        }) && r matches RestoreReply::Git(Outcome::Done(_))
}

/// Whether a request only looks, and changes nothing on disk.
pub open spec fn only_looks(action: RestoreAction<Seq<char>>) -> bool {
    match action {
        RestoreAction::FindAppState
        | RestoreAction::OpenRepository { .. }
        | RestoreAction::ReadEntry { .. }
        | RestoreAction::ReadDirectory { .. }
        | RestoreAction::DrawToken
        | RestoreAction::ReadHead
        | RestoreAction::Report(_)
        | RestoreAction::Finish => true,
        _ => false,
    }
}

/// Whether a request can change what is at the worktree path, other than by
/// moving it to the backup or back.
pub open spec fn touches_worktree(action: RestoreAction<Seq<char>>) -> bool {
    match action {
        RestoreAction::RemoveWorktree { .. }
        | RestoreAction::CreateWorktree { .. }
        | RestoreAction::ChangeBranch { .. }
        | RestoreAction::Detach { .. }
        | RestoreAction::CreateBranch { .. }
        | RestoreAction::RestoreCheckpoint { .. }
        | RestoreAction::ClearDirectory { .. } => true,
        _ => false,
    }
}

/// Phases in which the worktree path may have been changed.
spec fn past_moving_aside(phase: RestorePhase<Seq<char>>) -> bool {
    match phase {
        RestorePhase::FindingAppState
        | RestorePhase::OpeningMain
        | RestorePhase::Probing
        | RestorePhase::CheckingEntry
        | RestorePhase::CheckingListing
        | RestorePhase::NamingBackup
        | RestorePhase::CreatingBackup
        | RestorePhase::MovingAside
        | RestorePhase::Finished(Err(_)) => false,
        _ => true,
    }
}

/// Phases in which what stands at the worktree path is about to be moved aside.
spec fn naming_or_making(phase: RestorePhase<Seq<char>>) -> bool {
    phase is NamingBackup || phase is CreatingBackup || phase is MovingAside
}

/// Phases of a rollback that has content to move back.
spec fn in_rollback(phase: RestorePhase<Seq<char>>) -> bool {
    match phase {
        RestorePhase::RollbackProbing(_)
        | RestorePhase::RollbackListing(_)
        | RestorePhase::RollbackClearing(_)
        | RestorePhase::MovingBack(_)
        | RestorePhase::DroppingEmptyBackup(_)
        | RestorePhase::Reporting(_, _) => true,
        _ => false,
    }
}

/// Phases that come once the worktree has been created, unless it failed.
spec fn past_creation(phase: RestorePhase<Seq<char>>) -> bool {
    match phase {
        RestorePhase::OpeningWorktree
        | RestorePhase::ChangingBranch(_)
        | RestorePhase::ReadingHead
        | RestorePhase::Detaching
        | RestorePhase::CreatingBranch(_)
        | RestorePhase::RestoringCheckpoint
        | RestorePhase::DroppingBackup
        | RestorePhase::Finished(Ok(_)) => true,
        _ => false,
    }
}

/// What the past of a restore has to do with the worktree that it creates.
spec fn accounted(
    start: RestoreWorktree<Seq<char>>,
    replies: Seq<RestoreReply<Seq<char>>>,
) -> bool {
    let now = after(start, replies);
    let path = start.row.worktree_path;
    &&& now.row == start.row
    &&& past_creation(now.phase) ==> happened(start, replies, created(start.row)) && happened(
        start,
        replies,
        creation_tried(),
    )
    &&& happened(start, replies, creation_tried()) ==> past_creation(now.phase)
        || now.phase is Discarding || happened_in_order(
        start,
        replies,
        creation_tried(),
        removal_tried(path),
    )
    &&& now.phase is Discarding ==> happened(start, replies, creation_tried())
    &&& now.phase is CreatingWorktree ==> happened(start, replies, removal_tried(path))
}

#[verifier::rlimit(50)]
#[verifier::spinoff_prover]
proof fn lemma_accounted(
    row: ArchivedGitWorktree<Seq<char>>,
    remote: bool,
    policy: OverwritePolicy,
    temp: TempDir<Seq<char>>,
    replies: Seq<RestoreReply<Seq<char>>>,
)
    ensures
        accounted(RestoreWorktree::starting(row, remote, policy, temp), replies),
    decreases replies.len(),
{
    let start = RestoreWorktree::starting(row, remote, policy, temp);
    let path = row.worktree_path;
    if replies.len() == 0 {
        lemma_nothing_happened(start, replies, creation_tried());
    } else {
        lemma_accounted(row, remote, policy, temp, replies.drop_last());
        lemma_happened_last(start, replies, created(row));
        lemma_happened_last(start, replies, creation_tried());
        lemma_happened_last(start, replies, removal_tried(path));
        lemma_happened_in_order_last(start, replies, creation_tried(), removal_tried(path));
    }
}

/// What the past of a restore has to do with the content that it moves.
spec fn consistent(
    start: RestoreWorktree<Seq<char>>,
    replies: Seq<RestoreReply<Seq<char>>>,
) -> bool {
    let now = after(start, replies);
    let path = start.row.worktree_path;
    let target = now.backup().target;
    &&& now.row == start.row
    &&& now.policy == start.policy
    &&& now.temp == start.temp
    &&& now.moved == happened(start, replies, moved_away(path))
    &&& now.moved ==> happened(start, replies, moved_aside(path, target))
    &&& now.phase is CheckingEntry || now.phase is CheckingListing || naming_or_making(now.phase)
        ==> happened(start, replies, found_entry(path))
    &&& now.phase is CreatingBackup || now.phase is MovingAside || now.moved ==> happened(
        start,
        replies,
        drawn(now.token),
    )
    &&& past_moving_aside(now.phase) ==> now.moved || happened(start, replies, found_missing(path))
    &&& in_rollback(now.phase) || now.phase is DroppingBackup ==> now.moved
    &&& start.policy is Refuse && (past_moving_aside(now.phase) || naming_or_making(now.phase))
        ==> happened(start, replies, found_missing(path))
        || happened(start, replies, found_empty(path))
    &&& now.phase is DroppingBackup ==> happened(start, replies, checkpoint_restored(start.row))
    &&& now.phase matches RestorePhase::Finished(Ok(done)) ==> done == path && happened(
        start,
        replies,
        checkpoint_restored(start.row),
    )
    &&& now.phase is DroppingEmptyBackup ==> happened(start, replies, moved_back(path, target))
    &&& now.phase matches RestorePhase::Reporting(error, alert) ==> alert.kept_at() == target
        && alert.cause() == rollback_reason(error)
    &&& now.phase matches RestorePhase::Finished(Err(error)) ==> now.moved ==> happened(
        start,
        replies,
        moved_back(path, target),
    ) || happened(start, replies, reported(target, rollback_reason(error)))
    &&& !past_moving_aside(now.phase) && !(now.phase is Finished) ==> !now.moved
}

#[verifier::rlimit(50)]
#[verifier::spinoff_prover]
proof fn lemma_consistent(
    start: RestoreWorktree<Seq<char>>,
    replies: Seq<RestoreReply<Seq<char>>>,
)
    requires
        exists|remote: bool|
            start == #[trigger] RestoreWorktree::starting(
                start.row,
                remote,
                start.policy,
                start.temp,
            ),
    ensures
        consistent(start, replies),
    decreases replies.len(),
{
    let path = start.row.worktree_path;
    if replies.len() == 0 {
        lemma_nothing_happened(start, replies, moved_away(path));
    } else {
        let before = after(start, replies.drop_last());
        let now = after(start, replies);
        let token = now.token;
        let target = now.backup().target;
        lemma_consistent(start, replies.drop_last());
        assert(now.temp == before.temp);
        assert(before.phase is NamingBackup || now.token == before.token);
        lemma_happened_last(start, replies, moved_away(path));
        lemma_happened_last(start, replies, moved_aside(path, target));
        lemma_happened_last(start, replies, drawn(token));
        lemma_happened_last(start, replies, found_missing(path));
        lemma_happened_last(start, replies, found_entry(path));
        lemma_happened_last(start, replies, found_empty(path));
        lemma_happened_last(start, replies, checkpoint_restored(start.row));
        lemma_happened_last(start, replies, moved_back(path, target));
        match after(start, replies).phase {
            RestorePhase::Finished(Err(error)) => {
                lemma_happened_last(start, replies, reported(target, rollback_reason(error)));
            },
            _ => {},
        }
    }
}

/// Whatever stands at the worktree path is safe: before a request that could
/// change it, either nothing was found there, or it was moved to the backup.
pub proof fn content_is_moved_aside_before_the_path_is_touched(
    row: ArchivedGitWorktree<Seq<char>>,
    remote: bool,
    policy: OverwritePolicy,
    temp: TempDir<Seq<char>>,
    replies: Seq<RestoreReply<Seq<char>>>,
)
    ensures
        ({
            let start = RestoreWorktree::starting(row, remote, policy, temp);
            let now = after(start, replies);
            touches_worktree(now.pending()) ==> happened(
                start,
                replies,
                found_missing(row.worktree_path),
            ) || happened(start, replies, moved_aside(row.worktree_path, now.backup().target))
        }),
{
    lemma_consistent(RestoreWorktree::starting(row, remote, policy, temp), replies);
}

/// A restore that may not overwrite only looks, until it has seen that there
/// is no content at the worktree path: no entry at all, or an empty directory.
pub proof fn refusing_restores_only_look_at_content(
    row: ArchivedGitWorktree<Seq<char>>,
    remote: bool,
    temp: TempDir<Seq<char>>,
    replies: Seq<RestoreReply<Seq<char>>>,
)
    ensures
        ({
            let start = RestoreWorktree::starting(row, remote, OverwritePolicy::Refuse, temp);
            only_looks(after(start, replies).pending()) || happened(
                start,
                replies,
                found_missing(row.worktree_path),
            ) || happened(start, replies, found_empty(row.worktree_path))
        }),
{
    lemma_consistent(
        RestoreWorktree::starting(row, remote, OverwritePolicy::Refuse, temp),
        replies,
    );
}

/// A backup is made only of something, and only then is a token drawn for it:
/// an entry was found at the worktree path.
pub proof fn backups_are_made_of_something(
    row: ArchivedGitWorktree<Seq<char>>,
    remote: bool,
    policy: OverwritePolicy,
    temp: TempDir<Seq<char>>,
    replies: Seq<RestoreReply<Seq<char>>>,
)
    ensures
        ({
            let start = RestoreWorktree::starting(row, remote, policy, temp);
            let asked = after(start, replies).pending();
            asked is DrawToken || asked is CreateBackupDirectory || asked is MoveAside ==> happened(
                start,
                replies,
                found_entry(row.worktree_path),
            )
        }),
{
    lemma_consistent(RestoreWorktree::starting(row, remote, policy, temp), replies);
}

/// A backup lies in the directory for temporary files, under the token that
/// was drawn for it.
pub proof fn backups_are_named_by_their_token(
    row: ArchivedGitWorktree<Seq<char>>,
    remote: bool,
    policy: OverwritePolicy,
    temp: TempDir<Seq<char>>,
    replies: Seq<RestoreReply<Seq<char>>>,
)
    ensures
        ({
            let start = RestoreWorktree::starting(row, remote, policy, temp);
            let now = after(start, replies);
            let asked = now.pending();
            &&& now.backup() == backup_at(temp, now.token)
            &&& asked is CreateBackupDirectory || asked is MoveAside || asked is MoveBack
                || asked is DropBackup ==> happened(start, replies, drawn(now.token))
        }),
{
    lemma_consistent(RestoreWorktree::starting(row, remote, policy, temp), replies);
}

/// The directory `dir` was made.
pub open spec fn directory_made(dir: Seq<char>) -> Exchange {
    |q: RestoreAction<Seq<char>>, r: RestoreReply<Seq<char>>|
        q == (RestoreAction::CreateBackupDirectory { dir }) && r matches RestoreReply::Files(Ok(_))
}

/// Whether `place` is the entry `worktree` of a directory that was made for it.
pub open spec fn is_in_made_directory(
    start: RestoreWorktree<Seq<char>>,
    replies: Seq<RestoreReply<Seq<char>>>,
    place: Seq<char>,
) -> bool {
    exists|dir: Seq<char>|
        #![trigger directory_made(dir)]
        happened(start, replies, directory_made(dir)) && is_entry_of(
            place,
            dir,
            start.temp.separator,
            "worktree"@,
        )
}

/// A backup whose place is in use has had its directory made.
spec fn housed(
    start: RestoreWorktree<Seq<char>>,
    replies: Seq<RestoreReply<Seq<char>>>,
) -> bool {
    let now = after(start, replies);
    &&& now.row == start.row
    &&& now.temp == start.temp
    &&& now.phase is MovingAside || now.moved ==> happened(
        start,
        replies,
        directory_made(now.backup().dir),
    )
    &&& now.moved ==> past_naming(now.phase)
}

#[verifier::rlimit(50)]
#[verifier::spinoff_prover]
proof fn lemma_housed(
    row: ArchivedGitWorktree<Seq<char>>,
    remote: bool,
    policy: OverwritePolicy,
    temp: TempDir<Seq<char>>,
    replies: Seq<RestoreReply<Seq<char>>>,
)
    ensures
        housed(RestoreWorktree::starting(row, remote, policy, temp), replies),
    decreases replies.len(),
{
    let start = RestoreWorktree::starting(row, remote, policy, temp);
    if replies.len() > 0 {
        let before = after(start, replies.drop_last());
        let now = after(start, replies);
        lemma_housed(row, remote, policy, temp, replies.drop_last());
        lemma_happened_last(start, replies, directory_made(now.backup().dir));
        assert(past_naming(before.phase) ==> now.token == before.token);
        assert(past_naming(before.phase) ==> past_naming(now.phase));
    }
}

/// Content is moved to the entry `worktree` of the very directory that was made
/// for its backup, and back from there; and it is that directory which is
/// deleted in the end.
pub proof fn content_is_moved_into_the_directory_that_was_made(
    row: ArchivedGitWorktree<Seq<char>>,
    remote: bool,
    policy: OverwritePolicy,
    temp: TempDir<Seq<char>>,
    replies: Seq<RestoreReply<Seq<char>>>,
)
    ensures
        ({
            let start = RestoreWorktree::starting(row, remote, policy, temp);
            match after(start, replies).pending() {
                RestoreAction::MoveAside { from, to } => from == row.worktree_path
                    && is_in_made_directory(start, replies, to),
                RestoreAction::MoveBack { from, to } => to == row.worktree_path
                    && is_in_made_directory(start, replies, from),
                RestoreAction::DropBackup { dir } => happened(start, replies, directory_made(dir)),
                _ => true,
            }
        }),
{
    let start = RestoreWorktree::starting(row, remote, policy, temp);
    let now = after(start, replies);
    lemma_consistent(start, replies);
    lemma_housed(row, remote, policy, temp, replies);
    backups_lie_in_their_own_directory(temp, now.token);
    if now.phase is MovingAside || now.moved {
        assert(happened(start, replies, directory_made(now.backup().dir)));
    }
}

/// A backup is deleted only when it is not needed any more: after the archived
/// state was restored, or after the content was moved back.
pub proof fn backup_outlives_the_need_for_it(
    row: ArchivedGitWorktree<Seq<char>>,
    remote: bool,
    policy: OverwritePolicy,
    temp: TempDir<Seq<char>>,
    replies: Seq<RestoreReply<Seq<char>>>,
)
    ensures
        ({
            let start = RestoreWorktree::starting(row, remote, policy, temp);
            let now = after(start, replies);
            now.pending() is DropBackup ==> happened(start, replies, checkpoint_restored(row))
                || happened(start, replies, moved_back(row.worktree_path, now.backup().target))
        }),
{
    lemma_consistent(RestoreWorktree::starting(row, remote, policy, temp), replies);
}

/// A restore that fails after it moved content aside has moved it back, or
/// has reported where the content is and why the restore failed.
pub proof fn failed_restores_give_content_back(
    row: ArchivedGitWorktree<Seq<char>>,
    remote: bool,
    policy: OverwritePolicy,
    temp: TempDir<Seq<char>>,
    replies: Seq<RestoreReply<Seq<char>>>,
)
    ensures
        ({
            let start = RestoreWorktree::starting(row, remote, policy, temp);
            let path = row.worktree_path;
            let now = after(start, replies);
            let target = now.backup().target;
            now.outcome() matches Some(Err(error)) ==> happened(start, replies, moved_away(path))
                ==> happened(start, replies, moved_aside(path, target)) && (happened(
                start,
                replies,
                moved_back(path, target),
            ) || happened(start, replies, reported(target, rollback_reason(error))))
        }),
{
    lemma_consistent(RestoreWorktree::starting(row, remote, policy, temp), replies);
}

/// A restore that succeeds names the worktree path of the record, created the
/// worktree at the original commit, and read the archived trees into it.
pub proof fn successful_restores_bring_the_archived_state_back(
    row: ArchivedGitWorktree<Seq<char>>,
    remote: bool,
    policy: OverwritePolicy,
    temp: TempDir<Seq<char>>,
    replies: Seq<RestoreReply<Seq<char>>>,
)
    ensures
        ({
            let start = RestoreWorktree::starting(row, remote, policy, temp);
            after(start, replies).outcome() matches Some(Ok(path)) ==> {
                &&& path == row.worktree_path
                &&& happened(start, replies, created(row))
                &&& happened(start, replies, checkpoint_restored(row))
            }
        }),
{
    lemma_consistent(RestoreWorktree::starting(row, remote, policy, temp), replies);
    lemma_accounted(row, remote, policy, temp, replies);
}

/// A restore that fails after it tried to create the worktree has tried to
/// remove it again, and only then turned to the backup.
pub proof fn failed_restores_remove_the_new_worktree(
    row: ArchivedGitWorktree<Seq<char>>,
    remote: bool,
    policy: OverwritePolicy,
    temp: TempDir<Seq<char>>,
    replies: Seq<RestoreReply<Seq<char>>>,
)
    ensures
        ({
            let start = RestoreWorktree::starting(row, remote, policy, temp);
            let now = after(start, replies);
            (now.outcome() matches Some(Err(_)) || now.pending() is MoveBack) ==> happened(
                start,
                replies,
                creation_tried(),
            ) ==> happened_in_order(
                start,
                replies,
                creation_tried(),
                removal_tried(row.worktree_path),
            )
        }),
{
    lemma_consistent(RestoreWorktree::starting(row, remote, policy, temp), replies);
    lemma_accounted(row, remote, policy, temp, replies);
}

/// A restore on a remote machine fails before it asks for anything.
pub proof fn remote_restores_ask_for_nothing(
    row: ArchivedGitWorktree<Seq<char>>,
    policy: OverwritePolicy,
    temp: TempDir<Seq<char>>,
    replies: Seq<RestoreReply<Seq<char>>>,
)
    ensures
        after(RestoreWorktree::starting(row, true, policy, temp), replies).pending()
            == RestoreAction::<Seq<char>>::Finish,
        after(RestoreWorktree::starting(row, true, policy, temp), replies).outcome() == Some(
            Err::<Seq<char>, ArchiveError<Seq<char>>>(ArchiveError::RemoteRestoreUnsupported),
        ),
    decreases replies.len(),
{
    if replies.len() > 0 {
        remote_restores_ask_for_nothing(row, policy, temp, replies.drop_last());
    }
}

/// It was tried to delete the backup at `dir`.
pub open spec fn backup_dropped(dir: Seq<char>) -> Exchange {
    |q: RestoreAction<Seq<char>>, r: RestoreReply<Seq<char>>|
        q == (RestoreAction::DropBackup { dir }) && r is Files
}

/// The branch was checked out.
pub open spec fn branch_changed(branch: Seq<char>) -> Exchange {
    |q: RestoreAction<Seq<char>>, r: RestoreReply<Seq<char>>|
        q == (RestoreAction::ChangeBranch { branch }) && r matches RestoreReply::Git(
            Outcome::Done(_),
        )
}

/// The branch could not be checked out.
pub open spec fn branch_missing(branch: Seq<char>) -> Exchange {
    |q: RestoreAction<Seq<char>>, r: RestoreReply<Seq<char>>|
        {
            &&& q == (RestoreAction::ChangeBranch { branch })
            &&& r matches RestoreReply::Git(outcome)
            &&& !(outcome is Done)
        }
}

/// It was tried to create the branch.
pub open spec fn branch_creation_tried(branch: Seq<char>) -> Exchange {
    |q: RestoreAction<Seq<char>>, r: RestoreReply<Seq<char>>|
        q == (RestoreAction::CreateBranch { branch }) && r is Git
}

/// HEAD was found at another commit than `commit`.
pub open spec fn found_moved_from(commit: Seq<char>) -> Exchange {
    |q: RestoreAction<Seq<char>>, r: RestoreReply<Seq<char>>|
        {
            &&& q is ReadHead
            &&& r matches RestoreReply::Head(Outcome::Done(Some(head)))
            &&& head != commit
        }
}

/// It was tried to leave the branch again, for `commit` in the worktree at
/// `path`.
pub open spec fn detach_tried(commit: Seq<char>, path: Seq<char>) -> Exchange {
    |q: RestoreAction<Seq<char>>, r: RestoreReply<Seq<char>>|
        q == (RestoreAction::Detach { commit, path }) && r is Git
}

/// Phases that come once it is settled which branch the worktree is on.
spec fn past_branch(phase: RestorePhase<Seq<char>>) -> bool {
    match phase {
        RestorePhase::RestoringCheckpoint
        | RestorePhase::DroppingBackup
        | RestorePhase::Finished(Ok(_)) => true,
        _ => false,
    }
}

/// Phases that come once the backup has its name, if it needs one.
spec fn past_naming(phase: RestorePhase<Seq<char>>) -> bool {
    match phase {
        RestorePhase::FindingAppState
        | RestorePhase::OpeningMain
        | RestorePhase::Probing
        | RestorePhase::CheckingEntry
        | RestorePhase::CheckingListing
        | RestorePhase::NamingBackup => false,
        _ => true,
    }
}

/// What the past of a restore has to do with the branch of its record.
spec fn orderly(
    start: RestoreWorktree<Seq<char>>,
    replies: Seq<RestoreReply<Seq<char>>>,
    branch: Seq<char>,
) -> bool {
    let now = after(start, replies);
    let path = start.row.worktree_path;
    let commit = start.row.original_commit_hash;
    let named = start.row.branch_name == Some(branch);
    let changed = happened(start, replies, branch_changed(branch));
    let missing = happened(start, replies, branch_missing(branch));
    let moved = happened(start, replies, found_moved_from(commit));
    &&& now.row == start.row
    &&& now.phase matches RestorePhase::ChangingBranch(b) ==> start.row.branch_name == Some(b)
    &&& now.phase matches RestorePhase::CreatingBranch(b) ==> start.row.branch_name == Some(b)
        && happened(start, replies, branch_missing(b))
    &&& now.phase is ReadingHead ==> start.row.branch_name is Some && (named ==> changed)
    &&& now.phase is Detaching ==> start.row.branch_name is Some && (named ==> changed) && moved
    &&& missing ==> named && (now.phase is CreatingBranch || happened(
        start,
        replies,
        branch_creation_tried(branch),
    ))
    &&& moved ==> now.phase is Detaching || happened(start, replies, detach_tried(commit, path))
    &&& named && past_branch(now.phase) ==> changed || missing
}

/// What the past of a restore has to do with the end of its backup.
spec fn tidy(
    start: RestoreWorktree<Seq<char>>,
    replies: Seq<RestoreReply<Seq<char>>>,
) -> bool {
    let now = after(start, replies);
    let dropped = happened(start, replies, backup_dropped(now.backup().dir));
    &&& now.row == start.row
    &&& now.phase matches RestorePhase::Finished(Ok(_)) ==> now.moved ==> dropped
    &&& happened(start, replies, given_back(start.row.worktree_path)) ==> past_naming(now.phase)
        && (now.phase is DroppingEmptyBackup || dropped)
}

#[verifier::rlimit(50)]
#[verifier::spinoff_prover]
proof fn lemma_tidy(
    row: ArchivedGitWorktree<Seq<char>>,
    remote: bool,
    policy: OverwritePolicy,
    temp: TempDir<Seq<char>>,
    replies: Seq<RestoreReply<Seq<char>>>,
)
    ensures
        tidy(RestoreWorktree::starting(row, remote, policy, temp), replies),
    decreases replies.len(),
{
    let start = RestoreWorktree::starting(row, remote, policy, temp);
    let path = row.worktree_path;
    if replies.len() == 0 {
        lemma_nothing_happened(start, replies, given_back(path));
    } else {
        let before = after(start, replies.drop_last());
        let now = after(start, replies);
        let dir = now.backup().dir;
        lemma_tidy(row, remote, policy, temp, replies.drop_last());
        lemma_happened_last(start, replies, backup_dropped(dir));
        lemma_happened_last(start, replies, given_back(path));
        assert(now.row == row);
        assert(past_naming(before.phase) ==> now.temp == before.temp && now.token == before.token);
        assert(past_naming(before.phase) ==> past_naming(now.phase));
    }
}

#[verifier::rlimit(50)]
#[verifier::spinoff_prover]
proof fn lemma_orderly(
    row: ArchivedGitWorktree<Seq<char>>,
    remote: bool,
    policy: OverwritePolicy,
    temp: TempDir<Seq<char>>,
    replies: Seq<RestoreReply<Seq<char>>>,
    branch: Seq<char>,
)
    ensures
        orderly(RestoreWorktree::starting(row, remote, policy, temp), replies, branch),
    decreases replies.len(),
{
    let start = RestoreWorktree::starting(row, remote, policy, temp);
    let path = row.worktree_path;
    let commit = row.original_commit_hash;
    if replies.len() == 0 {
        lemma_nothing_happened(start, replies, branch_missing(branch));
        lemma_nothing_happened(start, replies, found_moved_from(commit));
    } else {
        lemma_orderly(row, remote, policy, temp, replies.drop_last(), branch);
        lemma_happened_last(start, replies, branch_changed(branch));
        lemma_happened_last(start, replies, branch_missing(branch));
        lemma_happened_last(start, replies, branch_creation_tried(branch));
        lemma_happened_last(start, replies, found_moved_from(commit));
        lemma_happened_last(start, replies, detach_tried(commit, path));
        if let RestorePhase::CreatingBranch(b) = after(start, replies).phase {
            lemma_happened_last(start, replies, branch_missing(b));
        }
    }
}

/// A restore that succeeds has put the worktree on the archived branch: it has
/// checked the branch out, or, where it is gone, has tried to create it again.
/// A branch that was found to have moved away from the archived commit was to
/// be left again for that commit.
pub proof fn successful_restores_settle_the_branch(
    row: ArchivedGitWorktree<Seq<char>>,
    remote: bool,
    policy: OverwritePolicy,
    temp: TempDir<Seq<char>>,
    replies: Seq<RestoreReply<Seq<char>>>,
)
    ensures
        ({
            let start = RestoreWorktree::starting(row, remote, policy, temp);
            let commit = row.original_commit_hash;
            after(start, replies).outcome() matches Some(Ok(_)) ==> {
                &&& row.branch_name matches Some(branch) ==> happened(
                    start,
                    replies,
                    branch_changed(branch),
                ) || (happened(start, replies, branch_missing(branch)) && happened(
                    start,
                    replies,
                    branch_creation_tried(branch),
                ))
                &&& happened(start, replies, found_moved_from(commit)) ==> happened(
                    start,
                    replies,
                    detach_tried(commit, row.worktree_path),
                )
            }
        }),
{
    match row.branch_name {
        Some(branch) => {
            lemma_orderly(row, remote, policy, temp, replies, branch);
        },
        None => {
            lemma_orderly(row, remote, policy, temp, replies, Seq::empty());
        },
    }
}

/// A restore never asks for a branch that the record does not name.
pub proof fn restores_ask_for_the_archived_branch_only(
    row: ArchivedGitWorktree<Seq<char>>,
    remote: bool,
    policy: OverwritePolicy,
    temp: TempDir<Seq<char>>,
    replies: Seq<RestoreReply<Seq<char>>>,
)
    ensures
        ({
            let start = RestoreWorktree::starting(row, remote, policy, temp);
            let asked = after(start, replies).pending();
            &&& asked matches RestoreAction::ChangeBranch { branch } ==> row.branch_name == Some(
                branch,
            )
            &&& asked matches RestoreAction::CreateBranch { branch } ==> row.branch_name == Some(
                branch,
            ) && happened(start, replies, branch_missing(branch))
        }),
{
    lemma_orderly(row, remote, policy, temp, replies, Seq::empty());
}

/// Before the worktree is created, it was tried to remove a registration of
/// the same path that might stand in the way.
pub proof fn registrations_are_removed_before_the_worktree_is_created(
    row: ArchivedGitWorktree<Seq<char>>,
    remote: bool,
    policy: OverwritePolicy,
    temp: TempDir<Seq<char>>,
    replies: Seq<RestoreReply<Seq<char>>>,
)
    ensures
        ({
            let start = RestoreWorktree::starting(row, remote, policy, temp);
            after(start, replies).pending() is CreateWorktree ==> happened(
                start,
                replies,
                removal_tried(row.worktree_path),
            )
        }),
{
    lemma_accounted(row, remote, policy, temp, replies);
}

/// No backup lingers: a restore that has ended has tried to delete it, if it
/// succeeded after it moved content aside, or if it moved the content back.
pub proof fn backups_do_not_linger(
    row: ArchivedGitWorktree<Seq<char>>,
    remote: bool,
    policy: OverwritePolicy,
    temp: TempDir<Seq<char>>,
    replies: Seq<RestoreReply<Seq<char>>>,
)
    ensures
        ({
            let start = RestoreWorktree::starting(row, remote, policy, temp);
            let path = row.worktree_path;
            let now = after(start, replies);
            now.outcome() matches Some(result) ==> (result is Ok && happened(
                start,
                replies,
                moved_away(path),
            )) || happened(start, replies, given_back(path)) ==> happened(
                start,
                replies,
                backup_dropped(now.backup().dir),
            )
        }),
{
    lemma_consistent(RestoreWorktree::starting(row, remote, policy, temp), replies);
    lemma_tidy(row, remote, policy, temp, replies);
}

/// The answer to a content check, given to a restore that asks the same.
pub open spec fn same_answer(reply: ContentReply<Seq<char>>) -> RestoreReply<Seq<char>> {
    match reply {
        ContentReply::AppState(found) => RestoreReply::AppState(found),
        ContentReply::Entry(result) => RestoreReply::Entry(result),
        ContentReply::Listing(result) => RestoreReply::Listing(result),
    }
}

/// Whether a restore has come as far as a content check of its path, and has
/// drawn the consequence from what it found: content is left alone, and anything
/// else gets a backup.
pub open spec fn agree(
    check: ContentCheck<Seq<char>>,
    restore: RestoreWorktree<Seq<char>>,
) -> bool {
    let path = restore.row.worktree_path;
    &&& check.path == path
    &&& match check.phase {
        ContentPhase::FindingAppState => false,
        ContentPhase::ReadingEntry => restore.phase is CheckingEntry,
        ContentPhase::ReadingDirectory => restore.phase is CheckingListing,
        ContentPhase::Finished(Ok(true)) => restore.phase == RestorePhase::<Seq<char>>::Finished(
            Err(ArchiveError::ExistingContent { path }),
        ),
        ContentPhase::Finished(Ok(false)) => restore.phase is NamingBackup,
        ContentPhase::Finished(Err(error)) => restore.phase == RestorePhase::<Seq<char>>::Finished(
            Err(error),
        ),
    }
}

/// A restore that refuses to overwrite content decides as the content check
/// of its path does: given the same answers, it fails with that reason exactly
/// where the check finds content.
pub proof fn refusing_restores_agree_with_the_content_check(
    restore: RestoreWorktree<Seq<char>>,
    replies: Seq<ContentReply<Seq<char>>>,
)
    requires
        restore.phase is CheckingEntry,
    ensures
        agree(
            after(
                ContentCheck {
                    path: restore.row.worktree_path,
                    phase: ContentPhase::ReadingEntry,
                },
                replies,
            ),
            after(restore, replies.map_values(|reply: ContentReply<Seq<char>>| same_answer(reply))),
        ),
    decreases replies.len(),
{
    let same = |reply: ContentReply<Seq<char>>| same_answer(reply);
    if replies.len() > 0 {
        refusing_restores_agree_with_the_content_check(restore, replies.drop_last());
        assert(replies.map_values(same).drop_last() =~= replies.drop_last().map_values(same));
    }
}

} // verus!
