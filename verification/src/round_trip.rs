//! That a restore brings back what a saving has put away.
use vstd::prelude::*;

#[allow(unused_imports)]
use crate::backup::TempDir;
#[allow(unused_imports)]
use crate::error::ArchiveError;
#[allow(unused_imports)]
use crate::model::{ArchivedGitWorktree, OverwritePolicy, ThreadId};
#[allow(unused_imports)]
use crate::persist::{Checkpoint, PersistAction, PersistPhase, PersistReply};
#[allow(unused_imports)]
use crate::persist_laws::{
    branch_found, checkpoint_made, consistent, head_found, is_branch, lemma_consistent, ref_made,
    Answer, PersistExchange, Saving,
};
#[allow(unused_imports)]
use crate::plan::PlanView;
#[allow(unused_imports)]
use crate::restore::{RestoreReply, RestoreWorktree};
#[allow(unused_imports)]
use crate::restore_laws::{
    branch_changed, branch_creation_tried, branch_missing, checkpoint_restored, created,
    detach_tried, found_moved_from, successful_restores_bring_the_archived_state_back,
    successful_restores_settle_the_branch,
};
#[allow(unused_imports)]
use crate::text::ref_name;
#[allow(unused_imports)]
use crate::trace::{after, happened, lemma_happened_last, lemma_nothing_happened};

verus! {

/// The record was written as it stands in `row`.
pub open spec fn written(row: ArchivedGitWorktree<Seq<char>>) -> PersistExchange {
    |q: PersistAction<Seq<char>>, r: Answer|
        q == (PersistAction::CreateRecord {
            worktree_path: row.worktree_path,
            main_repo_path: row.main_repo_path,
            branch_name: row.branch_name,
            staged: row.staged_commit_hash,
            unstaged: row.unstaged_commit_hash,
            original: row.original_commit_hash,
        }) && r == Answer::Record(Ok(row.id))
}

/// Whether `row` holds the state that a saving found the worktree in: its
/// paths, HEAD, the branch, and the two commits of the checkpoint.
pub open spec fn holds_state(
    root: PlanView,
    replies: Seq<Answer>,
    row: ArchivedGitWorktree<Seq<char>>,
) -> bool {
    let start = Saving::starting(root);
    let checkpoint = Checkpoint {
        staged: row.staged_commit_hash,
        unstaged: row.unstaged_commit_hash,
    };
    &&& row.worktree_path == root.root_path.text
    &&& row.main_repo_path == root.main_repo_path.text
    &&& happened(start, replies, head_found(root, row.original_commit_hash))
    &&& happened(start, replies, checkpoint_made(root, checkpoint))
    &&& is_branch(root, replies, row.branch_name)
}

/// Phases before the record is written.
spec fn before_record(phase: PersistPhase<Seq<char>, Seq<ThreadId>>) -> bool {
    match phase {
        PersistPhase::ReadingHead
        | PersistPhase::Checkpointing { .. }
        | PersistPhase::ReadingBranch { .. }
        | PersistPhase::CreatingRecord { .. } => true,
        _ => false,
    }
}

/// How the written record and the state of a saving hang together.
spec fn follows(
    root: PlanView,
    replies: Seq<Answer>,
    row: ArchivedGitWorktree<Seq<char>>,
) -> bool {
    let start = Saving::starting(root);
    let now = after(start, replies);
    happened(start, replies, written(row)) ==> {
        &&& holds_state(root, replies, row)
        &&& !before_record(now.phase)
        &&& match now.phase {
            PersistPhase::ListingThreads { id, unstaged } => id == row.id && unstaged
                == row.unstaged_commit_hash,
            PersistPhase::Linking { id, unstaged, .. } => id == row.id && unstaged
                == row.unstaged_commit_hash,
            PersistPhase::OpeningMain { id, unstaged } => id == row.id && unstaged
                == row.unstaged_commit_hash,
            PersistPhase::WritingRef { id, unstaged } => id == row.id && unstaged
                == row.unstaged_commit_hash,
            PersistPhase::Finished(Ok(id)) => id == row.id && happened(
                start,
                replies,
                ref_made(ref_name(id as int), row.unstaged_commit_hash),
            ),
            _ => true,
        }
    }
}

proof fn lemma_follows(
    root: PlanView,
    replies: Seq<Answer>,
    row: ArchivedGitWorktree<Seq<char>>,
)
    ensures
        follows(root, replies, row),
    decreases replies.len(),
{
    let start = Saving::starting(root);
    let checkpoint = Checkpoint {
        staged: row.staged_commit_hash,
        unstaged: row.unstaged_commit_hash,
    };
    if replies.len() == 0 {
        lemma_nothing_happened(start, replies, written(row));
    } else {
        lemma_follows(root, replies.drop_last(), row);
        lemma_consistent(root, replies.drop_last());
        lemma_happened_last(start, replies, written(row));
        lemma_happened_last(start, replies, head_found(root, row.original_commit_hash));
        lemma_happened_last(start, replies, checkpoint_made(root, checkpoint));
        lemma_happened_last(start, replies, branch_found(root, row.branch_name));
        lemma_happened_last(
            start,
            replies,
            ref_made(ref_name(row.id as int), row.unstaged_commit_hash),
        );
        if let PersistPhase::CreatingRecord { checkpoint: held, .. } = after(
            start,
            replies.drop_last(),
        ).phase {
            if written(row)(after(start, replies.drop_last()).pending(), replies.last()) {
                assert(held == checkpoint);
            }
        }
    }
}

/// The record that a successful saving has written holds the state that the
/// worktree was found in, bears the id that the saving names, and has its
/// unstaged commit kept alive by its ref.
pub proof fn records_hold_the_saved_state(
    root: PlanView,
    replies: Seq<Answer>,
    row: ArchivedGitWorktree<Seq<char>>,
)
    requires
        happened(Saving::starting(root), replies, written(row)),
    ensures
        holds_state(root, replies, row),
        after(Saving::starting(root), replies).outcome() matches Some(Ok(id)) ==> id == row.id
            && happened(
            Saving::starting(root),
            replies,
            ref_made(ref_name(id as int), row.unstaged_commit_hash),
        ),
{
    lemma_follows(root, replies, row);
}

/// A restore from the record of a saving brings back what was saved: at the
/// same path, a worktree at the commit that HEAD was found at, with the trees
/// of the two commits that were written for the staged and unstaged state. It
/// has checked out the branch that the worktree was on, if it was on one, or,
/// where that is gone, has tried to create it again; a branch that was found to
/// have moved away from the saved commit was to be left again for that commit.
pub proof fn restores_bring_back_what_was_saved(
    root: PlanView,
    saving: Seq<Answer>,
    row: ArchivedGitWorktree<Seq<char>>,
    remote: bool,
    policy: OverwritePolicy,
    temp: TempDir<Seq<char>>,
    restoring: Seq<RestoreReply<Seq<char>>>,
)
    requires
        happened(Saving::starting(root), saving, written(row)),
    ensures
        ({
            let saved = Saving::starting(root);
            let restored = RestoreWorktree::starting(row, remote, policy, temp);
            let checkpoint = Checkpoint {
                staged: row.staged_commit_hash,
                unstaged: row.unstaged_commit_hash,
            };
            after(restored, restoring).outcome() matches Some(Ok(path)) ==> {
                &&& path == root.root_path.text
                &&& happened(saved, saving, head_found(root, row.original_commit_hash))
                &&& happened(restored, restoring, created(row))
                &&& happened(saved, saving, checkpoint_made(root, checkpoint))
                &&& happened(restored, restoring, checkpoint_restored(row))
                &&& is_branch(root, saving, row.branch_name)
                &&& row.branch_name matches Some(branch) ==> happened(
                    restored,
                    restoring,
                    branch_changed(branch),
                ) || (happened(restored, restoring, branch_missing(branch)) && happened(
                    restored,
                    restoring,
                    branch_creation_tried(branch),
                ))
                &&& happened(restored, restoring, found_moved_from(row.original_commit_hash))
                    ==> happened(
                    restored,
                    restoring,
                    detach_tried(row.original_commit_hash, path),
                )
            }
        }),
{
    lemma_follows(root, saving, row);
    successful_restores_bring_the_archived_state_back(row, remote, policy, temp, restoring);
    successful_restores_settle_the_branch(row, remote, policy, temp, restoring);
}

} // verus!
