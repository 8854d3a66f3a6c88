//! What holds of every saving of a worktree, whatever its environment answers.
use vstd::prelude::*;

#[allow(unused_imports)]
use crate::error::ArchiveError;
#[allow(unused_imports)]
use crate::model::{ConnectionId, Outcome};
use crate::model::ThreadId;
#[allow(unused_imports)]
use crate::persist::{linking, threads_on, Checkpoint, PersistPhase};
use crate::persist::{PersistAction, PersistReply, PersistWorktree, ThreadEntry};
use crate::plan::PlanView;
#[allow(unused_imports)]
use crate::record::{RecordAction, RecordDeletion, RecordReply};
#[allow(unused_imports)]
use crate::text::ref_name;
use crate::trace::Process;
#[allow(unused_imports)]
use crate::trace::{after, happened, lemma_happened_last};

verus! {

impl Process for PersistWorktree<Seq<char>, PlanView, Seq<ThreadId>> {
    type Request = PersistAction<Seq<char>>;

    type Reply = PersistReply<Seq<char>, Seq<ThreadEntry>>;

    open spec fn awaits(self) -> PersistAction<Seq<char>> {
        self.pending()
    }

    open spec fn advance(self, reply: PersistReply<Seq<char>, Seq<ThreadEntry>>) -> Self {
        self.next(reply)
    }
}

/// An answer to a request of a saving.
pub type Answer = PersistReply<Seq<char>, Seq<ThreadEntry>>;

/// A saving, in contracts.
pub type Saving = PersistWorktree<Seq<char>, PlanView, Seq<ThreadId>>;

/// A test of a request and the answer to it.
pub type PersistExchange = spec_fn(PersistAction<Seq<char>>, Answer) -> bool;

/// HEAD of the worktree was found at `original`.
pub open spec fn head_found(root: PlanView, original: Seq<char>) -> PersistExchange {
    |q: PersistAction<Seq<char>>, r: Answer|
        q == (PersistAction::<Seq<char>>::ReadHead { repository: root.worktree_repo })
            && r == Answer::Head(Outcome::Done(Some(original)))
}

/// The checkpoint was written in the worktree's repository.
pub open spec fn checkpoint_made(root: PlanView, checkpoint: Checkpoint<Seq<char>>) -> PersistExchange {
    |q: PersistAction<Seq<char>>, r: Answer|
        q == (PersistAction::<Seq<char>>::CreateCheckpoint { repository: root.worktree_repo })
            && r == Answer::Checkpoint(Outcome::Done(checkpoint))
}

/// The worktree was found to be on `branch_name`.
pub open spec fn branch_found(root: PlanView, branch_name: Option<Seq<char>>) -> PersistExchange {
    |q: PersistAction<Seq<char>>, r: Answer|
        q == (PersistAction::<Seq<char>>::ReadBranch { repository: root.worktree_repo })
            && r == Answer::Branch(branch_name)
}

/// Whether `branch_name` is the branch of the worktree: the one that the plan
/// names, or else the one that was found.
pub open spec fn is_branch(
    root: PlanView,
    replies: Seq<Answer>,
    branch_name: Option<Seq<char>>,
) -> bool {
    if root.branch_name is Some {
        branch_name == root.branch_name
    } else {
        happened(Saving::starting(root), replies, branch_found(root, branch_name))
    }
}

/// A record with the given contents was written, and got the id `id`.
pub open spec fn recorded(
    root: PlanView,
    original: Seq<char>,
    checkpoint: Checkpoint<Seq<char>>,
    branch_name: Option<Seq<char>>,
    id: i64,
) -> PersistExchange {
    |q: PersistAction<Seq<char>>, r: Answer|
        q == (PersistAction::CreateRecord {
            worktree_path: root.root_path.text,
            main_repo_path: root.main_repo_path.text,
            branch_name,
            staged: checkpoint.staged,
            unstaged: checkpoint.unstaged,
            original,
        }) && r == Answer::Record(Ok(id))
}

/// The stored threads were found to be `threads`.
pub open spec fn threads_found(threads: Seq<ThreadEntry>) -> PersistExchange {
    |q: PersistAction<Seq<char>>, r: Answer| q is ListThreads && r == Answer::Threads(threads)
}

/// `thread` was linked to the record `id`.
pub open spec fn linked(thread: ThreadId, id: i64) -> PersistExchange {
    |q: PersistAction<Seq<char>>, r: Answer|
        q == (PersistAction::<Seq<char>>::LinkThread { thread, id }) && r matches PersistReply::Linked(Ok(_))
}

/// It was tried to delete the record `id`.
pub open spec fn record_deleted(id: i64) -> PersistExchange {
    |q: PersistAction<Seq<char>>, r: Answer|
        q == (PersistAction::<Seq<char>>::DeleteRecord { id }) && r is RecordDeleted
}

/// The repository at `path` was opened.
pub open spec fn opened(path: Seq<char>, connection: Option<ConnectionId>) -> PersistExchange {
    |q: PersistAction<Seq<char>>, r: Answer|
        q == (PersistAction::OpenRepository { path, connection }) && r matches PersistReply::Opened(Ok(_))
}

/// The ref `name` was made to point at `commit`.
pub open spec fn ref_made(name: Seq<char>, commit: Seq<char>) -> PersistExchange {
    |q: PersistAction<Seq<char>>, r: Answer|
        q == (PersistAction::UpdateRef { name, commit }) && r matches PersistReply::RefUpdated(
            Outcome::Done(_),
        )
}

/// The record `id` was written, and holds what was found: HEAD, the two
/// commits of the checkpoint, and the branch.
#[verifier::opaque]
pub open spec fn saved(
    root: PlanView,
    replies: Seq<Answer>,
    id: i64,
    unstaged: Seq<char>,
) -> bool {
    let start = Saving::starting(root);
    exists|original: Seq<char>, checkpoint: Checkpoint<Seq<char>>, branch_name: Option<Seq<char>>|
        {
            &&& #[trigger] happened(
                start,
                replies,
                recorded(root, original, checkpoint, branch_name, id),
            )
            &&& happened(start, replies, head_found(root, original))
            &&& happened(start, replies, checkpoint_made(root, checkpoint))
            &&& checkpoint.unstaged == unstaged
            &&& is_branch(root, replies, branch_name)
        }
}

/// The record `id` was written and holds what was found.
pub open spec fn is_saved(root: PlanView, replies: Seq<Answer>, id: i64) -> bool {
    exists|unstaged: Seq<char>| saved(root, replies, id, unstaged)
}

/// The record `id` was written and holds what was found, and the ref `name`
/// was made to point at its unstaged commit.
pub open spec fn is_sealed(
    root: PlanView,
    replies: Seq<Answer>,
    id: i64,
    name: Seq<char>,
) -> bool {
    exists|unstaged: Seq<char>| #[trigger]
        saved(root, replies, id, unstaged) && happened(
            Saving::starting(root),
            replies,
            ref_made(name, unstaged),
        )
}

/// A record was written that it was tried to delete again.
pub open spec fn is_withdrawn(root: PlanView, replies: Seq<Answer>) -> bool {
    exists|id: i64| #[trigger]
        is_saved(root, replies, id) && happened(
            Saving::starting(root),
            replies,
            record_deleted(id),
        )
}

/// Every thread of the worktree has been linked to the record `id`, except
/// for those in `todo`.
#[verifier::opaque]
pub open spec fn all_linked(
    root: PlanView,
    replies: Seq<Answer>,
    id: i64,
    todo: Seq<ThreadId>,
) -> bool {
    let start = Saving::starting(root);
    exists|threads: Seq<ThreadEntry>|
        {
            &&& #[trigger] happened(start, replies, threads_found(threads))
            &&& forall|thread: ThreadId| #[trigger]
                threads_on(threads, root.root_path).contains(thread) ==> todo.contains(thread)
                    || happened(start, replies, linked(thread, id))
        }
}

/// The ref `name` belongs to a record that was saved with the unstaged commit
/// `commit`, and to which all threads of the worktree were linked.
pub open spec fn is_due(
    root: PlanView,
    replies: Seq<Answer>,
    name: Seq<char>,
    commit: Seq<char>,
) -> bool {
    exists|id: i64| #[trigger]
        saved(root, replies, id, commit) && name == ref_name(id as int) && all_linked(
            root,
            replies,
            id,
            Seq::empty(),
        )
}

proof fn lemma_saved_once(
    root: PlanView,
    replies: Seq<Answer>,
    original: Seq<char>,
    checkpoint: Checkpoint<Seq<char>>,
    branch_name: Option<Seq<char>>,
    id: i64,
)
    requires
        replies.len() > 0,
        ({
            let start = Saving::starting(root);
            let before = after(start, replies.drop_last());
            &&& before.root == root
            &&& before.phase == (PersistPhase::<Seq<char>, Seq<ThreadId>>::CreatingRecord {
                original,
                checkpoint,
                branch_name,
            })
            &&& replies.last() == Answer::Record(Ok(id))
            &&& happened(start, replies.drop_last(), head_found(root, original))
            &&& happened(start, replies.drop_last(), checkpoint_made(root, checkpoint))
            &&& is_branch(root, replies.drop_last(), branch_name)
        }),
    ensures
        saved(root, replies, id, checkpoint.unstaged),
{
    let start = Saving::starting(root);
    reveal(saved);
    lemma_happened_last(start, replies, branch_found(root, branch_name));
    lemma_happened_last(start, replies, recorded(root, original, checkpoint, branch_name, id));
    lemma_happened_last(start, replies, head_found(root, original));
    lemma_happened_last(start, replies, checkpoint_made(root, checkpoint));
    assert(happened(start, replies, recorded(root, original, checkpoint, branch_name, id)));
}

proof fn lemma_saved_for_good(root: PlanView, replies: Seq<Answer>, id: i64, unstaged: Seq<char>)
    requires
        replies.len() > 0,
        saved(root, replies.drop_last(), id, unstaged),
    ensures
        saved(root, replies, id, unstaged),
{
    let start = Saving::starting(root);
    let earlier = replies.drop_last();
    reveal(saved);
    let (original, checkpoint, branch_name) = choose|
        original: Seq<char>,
        checkpoint: Checkpoint<Seq<char>>,
        branch_name: Option<Seq<char>>,
    |
        {
            &&& #[trigger] happened(
                start,
                earlier,
                recorded(root, original, checkpoint, branch_name, id),
            )
            &&& happened(start, earlier, head_found(root, original))
            &&& happened(start, earlier, checkpoint_made(root, checkpoint))
            &&& checkpoint.unstaged == unstaged
            &&& is_branch(root, earlier, branch_name)
        };
    lemma_happened_last(start, replies, branch_found(root, branch_name));
    lemma_happened_last(start, replies, recorded(root, original, checkpoint, branch_name, id));
    lemma_happened_last(start, replies, head_found(root, original));
    lemma_happened_last(start, replies, checkpoint_made(root, checkpoint));
    assert(happened(start, replies, recorded(root, original, checkpoint, branch_name, id)));
}

proof fn lemma_all_linked_first(
    root: PlanView,
    replies: Seq<Answer>,
    threads: Seq<ThreadEntry>,
    id: i64,
)
    requires
        replies.len() > 0,
        after(Saving::starting(root), replies.drop_last()).phase is ListingThreads,
        replies.last() == Answer::Threads(threads),
    ensures
        all_linked(root, replies, id, threads_on(threads, root.root_path)),
{
    let start = Saving::starting(root);
    reveal(all_linked);
    lemma_happened_last(start, replies, threads_found(threads));
    assert(happened(start, replies, threads_found(threads)));
}

proof fn lemma_all_linked_next(
    root: PlanView,
    replies: Seq<Answer>,
    id: i64,
    todo: Seq<ThreadId>,
    left: Seq<ThreadId>,
)
    requires
        replies.len() > 0,
        all_linked(root, replies.drop_last(), id, todo),
        left == todo || (todo.len() > 0 && left == todo.drop_first() && linked(todo[0], id)(
            after(Saving::starting(root), replies.drop_last()).pending(),
            replies.last(),
        )),
    ensures
        all_linked(root, replies, id, left),
{
    let start = Saving::starting(root);
    let earlier = replies.drop_last();
    reveal(all_linked);
    let threads = choose|threads: Seq<ThreadEntry>|
        {
            &&& #[trigger] happened(start, earlier, threads_found(threads))
            &&& forall|thread: ThreadId| #[trigger]
                threads_on(threads, root.root_path).contains(thread) ==> todo.contains(thread)
                    || happened(start, earlier, linked(thread, id))
        };
    lemma_happened_last(start, replies, threads_found(threads));
    assert(happened(start, replies, threads_found(threads)));
    assert forall|thread: ThreadId| #[trigger]
        threads_on(threads, root.root_path).contains(thread) implies left.contains(thread)
        || happened(start, replies, linked(thread, id)) by {
        lemma_happened_last(start, replies, linked(thread, id));
        if todo.contains(thread) && left != todo && thread != todo[0] {
            let k = todo.index_of(thread);
            assert(left[k - 1] == thread);
        }
    }
}

/// What the past of a saving and its present state have to do with each other.
pub(crate) open spec fn consistent(root: PlanView, replies: Seq<Answer>) -> bool {
    let start = Saving::starting(root);
    let now = after(start, replies);
    &&& now.root == root
    &&& match now.phase {
        PersistPhase::ReadingHead => true,
        PersistPhase::Checkpointing { original } => happened(
            start,
            replies,
            head_found(root, original),
        ),
        PersistPhase::ReadingBranch { original, checkpoint } => {
            &&& happened(start, replies, head_found(root, original))
            &&& happened(start, replies, checkpoint_made(root, checkpoint))
            &&& root.branch_name is None
        },
        PersistPhase::CreatingRecord { original, checkpoint, branch_name } => {
            &&& happened(start, replies, head_found(root, original))
            &&& happened(start, replies, checkpoint_made(root, checkpoint))
            &&& is_branch(root, replies, branch_name)
        },
        PersistPhase::ListingThreads { id, unstaged } => saved(root, replies, id, unstaged),
        PersistPhase::Linking { id, unstaged, thread, rest } => {
            &&& saved(root, replies, id, unstaged)
            &&& all_linked(root, replies, id, seq![thread] + rest)
        },
        PersistPhase::DeletingRecord { id, .. } => is_saved(root, replies, id),
        PersistPhase::OpeningMain { id, unstaged } => {
            &&& saved(root, replies, id, unstaged)
            &&& all_linked(root, replies, id, Seq::empty())
        },
        PersistPhase::WritingRef { id, unstaged } => {
            &&& saved(root, replies, id, unstaged)
            &&& all_linked(root, replies, id, Seq::empty())
            &&& happened(
                start,
                replies,
                opened(root.main_repo_path.text, root.remote_connection),
            )
        },
        PersistPhase::Finished(Ok(id)) => {
            &&& all_linked(root, replies, id, Seq::empty())
            &&& happened(
                start,
                replies,
                opened(root.main_repo_path.text, root.remote_connection),
            )
            &&& is_sealed(root, replies, id, ref_name(id as int))
        },
        PersistPhase::Finished(Err(ArchiveError::ThreadLink { .. })) => is_withdrawn(root, replies),
        PersistPhase::Finished(Err(_)) => true,
    }
}

proof fn lemma_linking(
    root: PlanView,
    replies: Seq<Answer>,
    id: i64,
    unstaged: Seq<char>,
    todo: Seq<ThreadId>,
)
    requires
        after(Saving::starting(root), replies).root == root,
        after(Saving::starting(root), replies).phase == linking(id, unstaged, todo),
        saved(root, replies, id, unstaged),
        all_linked(root, replies, id, todo),
    ensures
        consistent(root, replies),
{
    if todo.len() == 0 {
        assert(todo =~= Seq::empty());
    } else {
        assert(todo =~= seq![todo[0]] + todo.drop_first());
    }
}

pub(crate) proof fn lemma_consistent(root: PlanView, replies: Seq<Answer>)
    ensures
        consistent(root, replies),
    decreases replies.len(),
{
    let start = Saving::starting(root);
    if replies.len() > 0 {
        let earlier = replies.drop_last();
        let before = after(start, earlier);
        let reply = replies.last();
        lemma_consistent(root, earlier);
        lemma_happened_last(
            start,
            replies,
            opened(root.main_repo_path.text, root.remote_connection),
        );
        match before.phase {
            PersistPhase::ReadingHead => {
                if let PersistReply::Head(Outcome::Done(Some(original))) = reply {
                    lemma_happened_last(start, replies, head_found(root, original));
                }
            },
            PersistPhase::Checkpointing { original } => {
                lemma_happened_last(start, replies, head_found(root, original));
                if let PersistReply::Checkpoint(Outcome::Done(checkpoint)) = reply {
                    lemma_happened_last(start, replies, checkpoint_made(root, checkpoint));
                }
            },
            PersistPhase::ReadingBranch { original, checkpoint } => {
                lemma_happened_last(start, replies, head_found(root, original));
                lemma_happened_last(start, replies, checkpoint_made(root, checkpoint));
                if let PersistReply::Branch(branch_name) = reply {
                    lemma_happened_last(start, replies, branch_found(root, branch_name));
                }
            },
            PersistPhase::CreatingRecord { original, checkpoint, branch_name } => {
                lemma_happened_last(start, replies, branch_found(root, branch_name));
                lemma_happened_last(start, replies, head_found(root, original));
                lemma_happened_last(start, replies, checkpoint_made(root, checkpoint));
                if let PersistReply::Record(Ok(id)) = reply {
                    lemma_saved_once(root, replies, original, checkpoint, branch_name, id);
                }
            },
            PersistPhase::ListingThreads { id, unstaged } => {
                lemma_saved_for_good(root, replies, id, unstaged);
                if let PersistReply::Threads(threads) = reply {
                    lemma_all_linked_first(root, replies, threads, id);
                    lemma_linking(
                        root,
                        replies,
                        id,
                        unstaged,
                        threads_on(threads, root.root_path),
                    );
                }
            },
            PersistPhase::Linking { id, unstaged, thread, rest } => {
                let todo = seq![thread] + rest;
                lemma_saved_for_good(root, replies, id, unstaged);
                assert(todo.drop_first() =~= rest);
                if let PersistReply::Linked(Ok(_)) = reply {
                    lemma_all_linked_next(root, replies, id, todo, rest);
                    lemma_linking(root, replies, id, unstaged, rest);
                } else {
                    lemma_all_linked_next(root, replies, id, todo, todo);
                }
            },
            PersistPhase::DeletingRecord { id, .. } => {
                let unstaged = choose|unstaged: Seq<char>| saved(root, earlier, id, unstaged);
                lemma_saved_for_good(root, replies, id, unstaged);
                lemma_happened_last(start, replies, record_deleted(id));
                assert(is_saved(root, replies, id));
            },
            PersistPhase::OpeningMain { id, unstaged } => {
                lemma_saved_for_good(root, replies, id, unstaged);
                lemma_all_linked_next(root, replies, id, Seq::empty(), Seq::empty());
            },
            PersistPhase::WritingRef { id, unstaged } => {
                lemma_saved_for_good(root, replies, id, unstaged);
                lemma_all_linked_next(root, replies, id, Seq::empty(), Seq::empty());
                lemma_happened_last(start, replies, ref_made(ref_name(id as int), unstaged));
            },
            PersistPhase::Finished(Ok(id)) => {
                let unstaged = choose|unstaged: Seq<char>| #[trigger]
                    saved(root, earlier, id, unstaged) && happened(
                        start,
                        earlier,
                        ref_made(ref_name(id as int), unstaged),
                    );
                lemma_saved_for_good(root, replies, id, unstaged);
                lemma_all_linked_next(root, replies, id, Seq::empty(), Seq::empty());
                lemma_happened_last(start, replies, ref_made(ref_name(id as int), unstaged));
            },
            PersistPhase::Finished(Err(ArchiveError::ThreadLink { .. })) => {
                let id = choose|id: i64| #[trigger]
                    is_saved(root, earlier, id) && happened(start, earlier, record_deleted(id));
                let unstaged = choose|unstaged: Seq<char>| saved(root, earlier, id, unstaged);
                lemma_saved_for_good(root, replies, id, unstaged);
                lemma_happened_last(start, replies, record_deleted(id));
                assert(is_saved(root, replies, id));
            },
            PersistPhase::Finished(Err(_)) => {},
        }
    }
}

/// A saving that succeeds has written the record that it names, with HEAD and
/// the two commits; has linked every thread of the worktree to it; and has
/// made the record's ref on the main repository point at the unstaged commit,
/// so that both commits stay alive.
pub proof fn successful_savings_are_complete(root: PlanView, replies: Seq<Answer>)
    ensures
        ({
            let start = Saving::starting(root);
            after(start, replies).outcome() matches Some(Ok(id)) ==> {
                &&& is_sealed(root, replies, id, ref_name(id as int))
                &&& all_linked(root, replies, id, Seq::empty())
                &&& happened(
                    start,
                    replies,
                    opened(root.main_repo_path.text, root.remote_connection),
                )
            }
        }),
{
    lemma_consistent(root, replies);
}

/// A saving whose threads could not all be linked has tried to delete the
/// record that it wrote.
pub proof fn failed_links_delete_the_record(root: PlanView, replies: Seq<Answer>)
    ensures
        ({
            let start = Saving::starting(root);
            after(start, replies).outcome() matches Some(Err(ArchiveError::ThreadLink { .. }))
                ==> is_withdrawn(root, replies)
        }),
{
    lemma_consistent(root, replies);
}

/// A ref is written only for a record that was saved and to which all threads
/// of the worktree were linked, and it points at the unstaged commit of that
/// record.
pub proof fn refs_come_after_records(root: PlanView, replies: Seq<Answer>)
    ensures
        after(Saving::starting(root), replies).pending() matches PersistAction::UpdateRef {
            name,
            commit,
        } ==> is_due(root, replies, name, commit),
{
    lemma_consistent(root, replies);
    if let PersistPhase::WritingRef { id, unstaged } = after(Saving::starting(root), replies).phase {
        assert(saved(root, replies, id, unstaged));
    }
}

/// A rollback undoes what a successful saving left behind: it opens the same
/// main repository, deletes the very ref that was written there, and deletes
/// the very record.
pub proof fn rollbacks_undo_savings(root: PlanView, replies: Seq<Answer>, id: i64)
    requires
        after(Saving::starting(root), replies).outcome() == Some(
            Ok::<i64, ArchiveError<Seq<char>>>(id),
        ),
    ensures
        ({
            let start = Saving::starting(root);
            let rollback = RecordDeletion::starting(
                id,
                root.main_repo_path.text,
                root.remote_connection,
            );
            let opened_again = rollback.next(RecordReply::Opened(true));
            let ref_gone = opened_again.next(RecordReply::RefDeleted);
            &&& rollback.pending() matches RecordAction::OpenRepository { path, connection }
                && happened(start, replies, opened(path, connection))
            &&& opened_again.pending() matches RecordAction::DeleteRef { name }
                && is_sealed(root, replies, id, name)
            &&& ref_gone.pending() == (RecordAction::<Seq<char>>::DeleteRecord { id })
            &&& ref_gone.next(RecordReply::RecordDeleted).pending() is Finish
        }),
{
    lemma_consistent(root, replies);
}

} // verus!
