//! What a removal asks for, answer by answer.
use vstd::prelude::*;

use crate::error::ArchiveError;
#[allow(unused_imports)]
use crate::model::{ConnectionId, Outcome};
#[allow(unused_imports)]
use crate::plan::PlanView;
#[allow(unused_imports)]
use crate::removal::{detaching, re_adding, releasing, RemoveExchange, RemovePhase};
use crate::removal::{Removal, RemoveAction, RemoveReply};
#[allow(unused_imports)]
use crate::trace::{after, happened, lemma_happened_last};

verus! {

/// The repository at `path` on the given machine was opened.
pub open spec fn main_opened(path: Seq<char>, connection: Option<ConnectionId>) -> RemoveExchange {
    |q: RemoveAction<Seq<char>>, r: RemoveReply<Seq<char>>|
        q == (RemoveAction::OpenRepository { path, connection }) && r matches RemoveReply::Opened(
            Ok(_),
        )
}

/// A removal opens the main repository of its plan, on the machine of its
/// plan, and no other; it removes the worktree of its plan, and only once that
/// very repository was opened; and it is that worktree which it gives back.
pub proof fn removals_keep_to_their_plan(root: PlanView, replies: Seq<RemoveReply<Seq<char>>>)
    ensures
        ({
            let start = Removal::starting(root);
            let now = after(start, replies);
            &&& now.root == root
            &&& now.phase is Removing ==> happened(
                start,
                replies,
                main_opened(root.main_repo_path.text, root.remote_connection),
            )
            &&& match now.pending() {
                RemoveAction::OpenRepository { path, connection } => path
                    == root.main_repo_path.text && connection == root.remote_connection,
                RemoveAction::RemoveWorktree { path } => path == root.root_path.text && happened(
                    start,
                    replies,
                    main_opened(root.main_repo_path.text, root.remote_connection),
                ),
                RemoveAction::ReAdd { path, .. } => path == root.root_path.text,
                _ => true,
            }
        }),
    decreases replies.len(),
{
    let start = Removal::starting(root);
    if replies.len() > 0 {
        removals_keep_to_their_plan(root, replies.drop_last());
        lemma_happened_last(
            start,
            replies,
            main_opened(root.main_repo_path.text, root.remote_connection),
        );
    }
}

proof fn lemma_detaching(root: PlanView, replies: Seq<RemoveReply<Seq<char>>>)
    requires
        replies.len() <= root.affected_projects.len(),
        forall|j: int| 0 <= j < replies.len() ==> (#[trigger] replies[j]) is Detached,
    ensures
        after(Removal::starting(root), replies) == Removal::starting(root).at(
            detaching(
                root.affected_projects.skip(replies.len() as int),
                root.affected_projects,
            ),
        ),
    decreases replies.len(),
{
    let all = root.affected_projects;
    if replies.len() == 0 {
        assert(all.skip(0) =~= all);
    } else {
        let k = replies.len() - 1;
        assert(replies.last() == replies[k]);
        lemma_detaching(root, replies.drop_last());
        assert(all.skip(k).drop_first() =~= all.skip(k + 1));
    }
}

/// After `k` projects have let their worktree go, the next one in the order of
/// the plan is asked to, with its own id for it. Only after the last one is
/// the first release waited for.
pub proof fn removals_detach_every_project_in_turn(
    root: PlanView,
    replies: Seq<RemoveReply<Seq<char>>>,
)
    requires
        replies.len() <= root.affected_projects.len(),
        forall|j: int| 0 <= j < replies.len() ==> (#[trigger] replies[j]) is Detached,
    ensures
        ({
            let all = root.affected_projects;
            let k = replies.len() as int;
            after(Removal::starting(root), replies).pending() == (if k < all.len() {
                RemoveAction::Detach(all[k])
            } else if all.len() > 0 {
                RemoveAction::AwaitRelease(all[0])
            } else {
                RemoveAction::OpenRepository {
                    path: root.main_repo_path.text,
                    connection: root.remote_connection,
                }
            })
        }),
{
    lemma_detaching(root, replies);
}

proof fn lemma_releasing(start: Removal, replies: Seq<RemoveReply<Seq<char>>>)
    requires
        start.phase == releasing(start.root.affected_projects),
        replies.len() <= start.root.affected_projects.len(),
        forall|j: int| 0 <= j < replies.len() ==> (#[trigger] replies[j]) is Released,
    ensures
        after(start, replies) == start.at(
            releasing(start.root.affected_projects.skip(replies.len() as int)),
        ),
    decreases replies.len(),
{
    let all = start.root.affected_projects;
    if replies.len() == 0 {
        assert(all.skip(0) =~= all);
    } else {
        let k = replies.len() - 1;
        assert(replies.last() == replies[k]);
        lemma_releasing(start, replies.drop_last());
        assert(all.skip(k).drop_first() =~= all.skip(k + 1));
    }
}

/// Once all projects have let go, the release of each is waited for, in the
/// order of the plan. Then the main repository is opened.
pub proof fn removals_await_every_release_in_turn(
    root: PlanView,
    detached: Seq<RemoveReply<Seq<char>>>,
    released: Seq<RemoveReply<Seq<char>>>,
)
    requires
        detached.len() == root.affected_projects.len(),
        forall|j: int| 0 <= j < detached.len() ==> (#[trigger] detached[j]) is Detached,
        released.len() <= root.affected_projects.len(),
        forall|j: int| 0 <= j < released.len() ==> (#[trigger] released[j]) is Released,
    ensures
        ({
            let all = root.affected_projects;
            let k = released.len() as int;
            let now = after(after(Removal::starting(root), detached), released);
            &&& now.root == root
            &&& now.pending() == (if k < all.len() {
                RemoveAction::AwaitRelease(all[k])
            } else {
                RemoveAction::OpenRepository {
                    path: root.main_repo_path.text,
                    connection: root.remote_connection,
                }
            })
        }),
{
    let all = root.affected_projects;
    lemma_detaching(root, detached);
    assert(all.skip(all.len() as int) =~= Seq::empty());
    lemma_releasing(after(Removal::starting(root), detached), released);
}

proof fn lemma_re_adding(
    start: Removal,
    error: ArchiveError<Seq<char>>,
    replies: Seq<RemoveReply<Seq<char>>>,
)
    requires
        start.phase == re_adding(error, start.root.affected_projects),
        replies.len() <= start.root.affected_projects.len(),
        forall|j: int| 0 <= j < replies.len() ==> (#[trigger] replies[j]) is ReAdded,
    ensures
        after(start, replies) == start.at(
            re_adding(error, start.root.affected_projects.skip(replies.len() as int)),
        ),
    decreases replies.len(),
{
    let all = start.root.affected_projects;
    if replies.len() == 0 {
        assert(all.skip(0) =~= all);
    } else {
        let k = replies.len() - 1;
        assert(replies.last() == replies[k]);
        lemma_re_adding(start, error, replies.drop_last());
        assert(all.skip(k).drop_first() =~= all.skip(k + 1));
    }
}

/// Whether a removal has failed for `error`, and now gives the worktree back:
/// to each project in the order of the plan, and then it ends with the error.
pub open spec fn gives_back(failed: Removal, error: ArchiveError<Seq<char>>) -> bool {
    forall|replies: Seq<RemoveReply<Seq<char>>>|
        replies.len() <= failed.root.affected_projects.len() && (forall|j: int|
            0 <= j < replies.len() ==> (#[trigger] replies[j]) is ReAdded) ==> ({
            let all = failed.root.affected_projects;
            let k = replies.len() as int;
            let now = #[trigger] after(failed, replies);
            if k < all.len() {
                now.outcome() is None && now.pending() == (RemoveAction::ReAdd {
                    project: all[k].project,
                    path: failed.root.root_path.text,
                })
            } else {
                now.pending() is Finish && now.outcome() == Some(
                    Err::<(), ArchiveError<Seq<char>>>(error),
                )
            }
        })
}

proof fn lemma_gives_back(failed: Removal, error: ArchiveError<Seq<char>>)
    requires
        failed.phase == re_adding(error, failed.root.affected_projects),
    ensures
        gives_back(failed, error),
{
    assert forall|replies: Seq<RemoveReply<Seq<char>>>|
        replies.len() <= failed.root.affected_projects.len() && (forall|j: int|
            0 <= j < replies.len() ==> (#[trigger] replies[j]) is ReAdded) implies ({
        let all = failed.root.affected_projects;
        let k = replies.len() as int;
        let now = #[trigger] after(failed, replies);
        if k < all.len() {
            now.outcome() is None && now.pending() == (RemoveAction::ReAdd {
                project: all[k].project,
                path: failed.root.root_path.text,
            })
        } else {
            now.pending() is Finish && now.outcome() == Some(
                Err::<(), ArchiveError<Seq<char>>>(error),
            )
        }
    }) by {
        lemma_re_adding(failed, error, replies);
    }
}

/// A removal that waits for its main repository goes on to remove the worktree
/// by force once it is open. If it cannot be opened, or the worktree cannot be
/// removed, the worktree goes back to every project, and the removal fails for
/// just that reason. If it is removed, the removal has succeeded.
pub proof fn removals_succeed_or_give_back(
    waiting: Removal,
    error: ArchiveError<Seq<char>>,
    cause: Seq<char>,
)
    requires
        waiting.pending() is OpenRepository,
    ensures
        ({
            let opened = waiting.next(RemoveReply::Opened(Ok(())));
            let removed = opened.next(RemoveReply::Removed(Outcome::Done(())));
            let failed = opened.next(RemoveReply::Removed(Outcome::Failed(cause)));
            let canceled = opened.next(RemoveReply::Removed(Outcome::Canceled));
            let unopened = waiting.next(RemoveReply::Opened(Err(error)));
            &&& opened.pending() == (RemoveAction::RemoveWorktree {
                path: waiting.root.root_path.text,
            })
            &&& removed.pending() is Finish
            &&& removed.outcome() == Some(Ok::<(), ArchiveError<Seq<char>>>(()))
            &&& unopened.root == waiting.root
            &&& gives_back(unopened, error)
            &&& failed.root == waiting.root
            &&& gives_back(failed, ArchiveError::MetadataCleanup { cause })
            &&& canceled.root == waiting.root
            &&& gives_back(canceled, ArchiveError::MetadataCleanupCanceled)
        }),
{
    let opened = waiting.next(RemoveReply::Opened(Ok(())));
    let failed = opened.next(RemoveReply::Removed(Outcome::Failed(cause)));
    let canceled = opened.next(RemoveReply::Removed(Outcome::Canceled));
    let unopened = waiting.next(RemoveReply::Opened(Err(error)));
    lemma_gives_back(unopened, error);
    lemma_gives_back(failed, ArchiveError::MetadataCleanup { cause });
    lemma_gives_back(canceled, ArchiveError::MetadataCleanupCanceled);
}

} // verus!
