//! What a saving asks for, answer by answer, and which threads it links.
use vstd::prelude::*;

use crate::error::ArchiveError;
#[allow(unused_imports)]
use crate::model::{Outcome, ThreadId};
use crate::path::PathView;
use crate::persist::{Checkpoint, ThreadEntry};
#[allow(unused_imports)]
use crate::persist::{
    id_if_on, is_on, linking, threads_on, PersistAction, PersistPhase, PersistReply,
};
use crate::persist_laws::{Answer, Saving};
use crate::plan::PlanView;
#[allow(unused_imports)]
use crate::text::decimal;
#[allow(unused_imports)]
use crate::trace::after;

verus! {

/// The threads of one list and then of another are those of the first one, and
/// behind them those of the other.
pub proof fn threads_add_up(a: Seq<ThreadEntry>, b: Seq<ThreadEntry>, root: PathView)
    ensures
        threads_on(a + b, root) == threads_on(a, root) + threads_on(b, root),
    decreases b.len(),
{
    if b.len() == 0 {
        assert(a + b =~= a);
        assert(threads_on(a, root) + threads_on(b, root) =~= threads_on(a, root));
    } else {
        threads_add_up(a, b.drop_last(), root);
        assert((a + b).drop_last() =~= a + b.drop_last());
        assert((a + b).last() == b.last());
        assert(threads_on(a + b, root) =~= threads_on(a, root) + threads_on(b, root));
    }
}

/// A thread is one of the worktree's just when one of its folders, at whatever
/// place in its list, has all the parts of the worktree path.
pub proof fn threads_are_found_by_any_of_their_folders(thread: ThreadEntry, root: PathView)
    ensures
        threads_on(seq![thread], root) == (if exists|i: int|
            0 <= i < thread.folder_paths@.len() && (
            #[trigger] thread.folder_paths@[i])@.parts == root.parts {
            seq![thread.id]
        } else {
            Seq::empty()
        }),
{
    Seq::lemma_filter_map_singleton(thread, |t: ThreadEntry| id_if_on(t, root));
    if exists|i: int|
        0 <= i < thread.folder_paths@.len() && (#[trigger] thread.folder_paths@[i])@.parts
            == root.parts {
        let i = choose|i: int|
            0 <= i < thread.folder_paths@.len() && (#[trigger] thread.folder_paths@[i])@.parts
                == root.parts;
        assert(thread.folder_paths@[i]@.same_as(root));
        assert(is_on(thread, root));
    } else {
        if is_on(thread, root) {
            let i = choose|i: int|
                0 <= i < thread.folder_paths@.len()
                    && #[trigger] thread.folder_paths@[i]@.same_as(root);
            assert(thread.folder_paths@[i]@.parts == root.parts);
        }
    }
}

/// Every listed thread that has the worktree open is found, whichever of the
/// threads it is, and whichever of its folders that is.
pub proof fn no_thread_of_the_worktree_is_missed(
    threads: Seq<ThreadEntry>,
    root: PathView,
    t: int,
    i: int,
)
    requires
        0 <= t < threads.len(),
        0 <= i < threads[t].folder_paths@.len(),
        threads[t].folder_paths@[i]@.parts == root.parts,
    ensures
        threads_on(threads, root).contains(threads[t].id),
{
    let before = threads.take(t);
    let one = seq![threads[t]];
    let behind = threads.skip(t + 1);
    assert(threads =~= before + one + behind);
    threads_add_up(before + one, behind, root);
    threads_add_up(before, one, root);
    threads_are_found_by_any_of_their_folders(threads[t], root);
    let found = threads_on(threads, root);
    assert(found[threads_on(before, root).len() as int] == threads[t].id);
}

/// Whether the saving has ended with `error`.
pub open spec fn failed_for(saving: Saving, error: ArchiveError<Seq<char>>) -> bool {
    saving.pending() is Finish && saving.outcome() == Some(
        Err::<i64, ArchiveError<Seq<char>>>(error),
    )
}

/// Whether the saving is about to write a record of the worktree of its plan,
/// with the given commits and branch.
pub open spec fn about_to_record(
    saving: Saving,
    root: PlanView,
    original: Seq<char>,
    checkpoint: Checkpoint<Seq<char>>,
    branch_name: Option<Seq<char>>,
) -> bool {
    &&& saving.pending() == (PersistAction::CreateRecord {
        worktree_path: root.root_path.text,
        main_repo_path: root.main_repo_path.text,
        branch_name,
        staged: checkpoint.staged,
        unstaged: checkpoint.unstaged,
        original,
    })
    &&& saving.root == root
    &&& saving.outcome() is None
}

/// A saving reads HEAD of the worktree's own repository, writes the checkpoint
/// there, and then records both. The branch is the one that the plan names; if
/// it names none, the repository is asked for it, and its answer is taken.
pub proof fn savings_record_what_they_were_told(
    root: PlanView,
    original: Seq<char>,
    checkpoint: Checkpoint<Seq<char>>,
    branch_name: Option<Seq<char>>,
    cause: Seq<char>,
)
    ensures
        ({
            let start = Saving::starting(root);
            let repository = root.worktree_repo;
            let read = start.next(Answer::Head(Outcome::Done(Some(original))));
            let written = read.next(Answer::Checkpoint(Outcome::Done(checkpoint)));
            &&& start.pending() == (PersistAction::<Seq<char>>::ReadHead { repository })
            &&& failed_for(
                start.next(Answer::Head(Outcome::Done(None))),
                ArchiveError::HeadMissing,
            )
            &&& failed_for(
                start.next(Answer::Head(Outcome::Failed(cause))),
                ArchiveError::HeadUnreadable { cause },
            )
            &&& failed_for(
                start.next(Answer::Head(Outcome::Canceled)),
                ArchiveError::HeadCanceled,
            )
            &&& read.pending() == (PersistAction::<Seq<char>>::CreateCheckpoint { repository })
            &&& failed_for(
                read.next(Answer::Checkpoint(Outcome::Failed(cause))),
                ArchiveError::CheckpointFailed { cause },
            )
            &&& failed_for(
                read.next(Answer::Checkpoint(Outcome::Canceled)),
                ArchiveError::CheckpointCanceled,
            )
            &&& match root.branch_name {
                Some(branch) => about_to_record(
                    written,
                    root,
                    original,
                    checkpoint,
                    Some(branch),
                ),
                None => {
                    &&& written.pending() == (PersistAction::<Seq<char>>::ReadBranch {
                        repository,
                    })
                    &&& about_to_record(
                        written.next(Answer::Branch(branch_name)),
                        root,
                        original,
                        checkpoint,
                        branch_name,
                    )
                },
            }
        }),
{
}

proof fn lemma_linking(
    start: Saving,
    id: i64,
    unstaged: Seq<char>,
    todo: Seq<ThreadId>,
    replies: Seq<Answer>,
)
    requires
        start.phase == linking(id, unstaged, todo),
        replies.len() <= todo.len(),
        forall|j: int|
            0 <= j < replies.len() ==> (#[trigger] replies[j]) matches PersistReply::Linked(Ok(_)),
    ensures
        after(start, replies) == start.at(
            linking(id, unstaged, todo.skip(replies.len() as int)),
        ),
    decreases replies.len(),
{
    if replies.len() == 0 {
        assert(todo.skip(0) =~= todo);
    } else {
        let k = replies.len() - 1;
        assert(replies.last() == replies[k]);
        lemma_linking(start, id, unstaged, todo, replies.drop_last());
        assert(todo.skip(k).drop_first() =~= todo.skip(k + 1));
    }
}

/// Once the record is written, the threads are listed, and those that have the
/// worktree open are linked to it, in the order in which they were listed. The
/// main repository of the plan is opened only after the last one. A link that
/// fails has the record deleted, and the saving fails for that reason. A record
/// that cannot be written ends the saving.
pub proof fn savings_link_every_thread_in_turn(
    recording: Saving,
    id: i64,
    threads: Seq<ThreadEntry>,
    replies: Seq<Answer>,
    cause: Seq<char>,
)
    requires
        recording.pending() is CreateRecord,
        replies.len() <= threads_on(threads, recording.root.root_path).len(),
        forall|j: int|
            0 <= j < replies.len() ==> (#[trigger] replies[j]) matches PersistReply::Linked(Ok(_)),
    ensures
        ({
            let root = recording.root;
            let all = threads_on(threads, root.root_path);
            let k = replies.len() as int;
            let recorded = recording.next(Answer::Record(Ok(id)));
            let now = after(recorded.next(Answer::Threads(threads)), replies);
            &&& failed_for(
                recording.next(Answer::Record(Err(cause))),
                ArchiveError::RecordCreation { cause },
            )
            &&& recorded.pending() == PersistAction::<Seq<char>>::ListThreads
            &&& now.root == root
            &&& now.outcome() is None
            &&& now.pending() == (if k < all.len() {
                PersistAction::LinkThread { thread: all[k], id }
            } else {
                PersistAction::OpenRepository {
                    path: root.main_repo_path.text,
                    connection: root.remote_connection,
                }
            })
            &&& k < all.len() ==> {
                let unlinked = now.next(Answer::Linked(Err(cause)));
                &&& unlinked.pending() == (PersistAction::<Seq<char>>::DeleteRecord { id })
                &&& failed_for(
                    unlinked.next(Answer::RecordDeleted),
                    ArchiveError::ThreadLink { cause },
                )
            }
        }),
{
    let all = threads_on(threads, recording.root.root_path);
    let listed = recording.next(Answer::Record(Ok(id))).next(Answer::Threads(threads));
    if let PersistPhase::CreatingRecord { checkpoint, .. } = recording.phase {
        lemma_linking(listed, id, checkpoint.unstaged, all, replies);
    }
}

/// Once all threads are linked and the main repository is open, the ref that
/// bears the id of the record is made to point at the unstaged commit that was
/// recorded. Only then has the saving succeeded, with that id.
pub proof fn savings_seal_the_unstaged_commit(
    recording: Saving,
    unstaged: Seq<char>,
    id: i64,
    threads: Seq<ThreadEntry>,
    replies: Seq<Answer>,
    error: ArchiveError<Seq<char>>,
    cause: Seq<char>,
)
    requires
        recording.pending() is CreateRecord,
        recording.pending()->unstaged == unstaged,
        replies.len() == threads_on(threads, recording.root.root_path).len(),
        forall|j: int|
            0 <= j < replies.len() ==> (#[trigger] replies[j]) matches PersistReply::Linked(Ok(_)),
    ensures
        ({
            let recorded = recording.next(Answer::Record(Ok(id)));
            let linked = after(recorded.next(Answer::Threads(threads)), replies);
            let opened = linked.next(Answer::Opened(Ok(())));
            let sealed = opened.next(Answer::RefUpdated(Outcome::Done(())));
            let name = "refs/archived-worktrees/"@ + decimal(id as int);
            &&& failed_for(
                linked.next(Answer::Opened(Err(error))),
                ArchiveError::MainRepository { cause: error.text() },
            )
            &&& opened.pending() == (PersistAction::UpdateRef { name, commit: unstaged })
            &&& failed_for(
                opened.next(Answer::RefUpdated(Outcome::Failed(cause))),
                ArchiveError::RefCreation { name, cause },
            )
            &&& failed_for(
                opened.next(Answer::RefUpdated(Outcome::Canceled)),
                ArchiveError::RefCreation { name, cause: "update_ref canceled"@ },
            )
            &&& sealed.pending() is Finish
            &&& sealed.outcome() == Some(Ok::<i64, ArchiveError<Seq<char>>>(id))
        }),
{
    let all = threads_on(threads, recording.root.root_path);
    let listed = recording.next(Answer::Record(Ok(id))).next(Answer::Threads(threads));
    if let PersistPhase::CreatingRecord { checkpoint, .. } = recording.phase {
        lemma_linking(listed, id, checkpoint.unstaged, all, replies);
        assert(all.skip(all.len() as int) =~= Seq::empty());
    }
}

} // verus!
