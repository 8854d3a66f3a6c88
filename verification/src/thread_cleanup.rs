//! Cleaning up after a thread that is being deleted, one step at a time.
//!
//! The thread is unlinked from its archived worktrees, and those that no other
//! thread refers to go with it.
use vstd::prelude::*;

use crate::model::{ArchivedGitWorktree, ConnectionId, ThreadId};
use crate::trace::Process;
#[allow(unused_imports)]
use crate::trace::{
    after, happened, happened_in_order, lemma_happened_in_order_last, lemma_happened_last,
    lemma_nothing_happened,
};

verus! {

/// What is needed next to clean up after a thread. `R` is a record.
#[derive(Debug, PartialEq, Eq)]
pub enum CleanupAction<R> {
    /// Look up the remote connection that the thread has on file.
    FindConnection(ThreadId),
    /// Fetch the records of the thread's archived worktrees.
    FetchRecords(ThreadId),
    /// Unlink the thread from all its archived worktrees.
    UnlinkThread(ThreadId),
    /// Ask whether any thread is still linked to the record `id`.
    CheckReferenced { id: i64 },
    /// Delete the record and its git ref.
    CleanUpRecord { row: R, connection: Option<ConnectionId> },
    /// Nothing: the cleanup has ended.
    Finish,
}

impl View for CleanupAction<ArchivedGitWorktree<String>> {
    type V = CleanupAction<ArchivedGitWorktree<Seq<char>>>;

    open spec fn view(&self) -> CleanupAction<ArchivedGitWorktree<Seq<char>>> {
        match self {
            CleanupAction::FindConnection(thread) => CleanupAction::FindConnection(*thread),
            CleanupAction::FetchRecords(thread) => CleanupAction::FetchRecords(*thread),
            CleanupAction::UnlinkThread(thread) => CleanupAction::UnlinkThread(*thread),
            CleanupAction::CheckReferenced { id } => CleanupAction::CheckReferenced { id: *id },
            CleanupAction::CleanUpRecord { row, connection } =>
                CleanupAction::CleanUpRecord { row: row@, connection: *connection },
            CleanupAction::Finish => CleanupAction::Finish,
        }
    }
}

/// Records, each taken by its texts.
pub open spec fn records(rows: Seq<ArchivedGitWorktree<String>>) -> Seq<
    ArchivedGitWorktree<Seq<char>>,
> {
    rows.map_values(|row: ArchivedGitWorktree<String>| row@)
}

/// What the environment answers to a [`CleanupAction`]. `L` is a list of
/// records.
#[derive(Debug, PartialEq, Eq)]
pub enum CleanupReply<L> {
    /// To `FindConnection`.
    Connection(Option<ConnectionId>),
    /// To `FetchRecords`: `None` if they could not be fetched.
    Records(Option<L>),
    /// To `UnlinkThread`: whether the thread is unlinked now.
    Unlinked(bool),
    /// To `CheckReferenced`: `None` if it could not be found out.
    Referenced(Option<bool>),
    /// To `CleanUpRecord`: it was tried.
    CleanedUp,
}

impl View for CleanupReply<Vec<ArchivedGitWorktree<String>>> {
    type V = CleanupReply<Seq<ArchivedGitWorktree<Seq<char>>>>;

    open spec fn view(&self) -> CleanupReply<Seq<ArchivedGitWorktree<Seq<char>>>> {
        match self {
            CleanupReply::Connection(connection) => CleanupReply::Connection(*connection),
            CleanupReply::Records(Some(rows)) => CleanupReply::Records(Some(records(rows@))),
            CleanupReply::Records(None) => CleanupReply::Records(None),
            CleanupReply::Unlinked(unlinked) => CleanupReply::Unlinked(*unlinked),
            CleanupReply::Referenced(referenced) => CleanupReply::Referenced(*referenced),
            CleanupReply::CleanedUp => CleanupReply::CleanedUp,
        }
    }
}

/// How far a cleanup has come.
#[derive(Debug, PartialEq, Eq)]
pub enum CleanupPhase<R, L> {
    FindingConnection,
    Fetching,
    Unlinking { rows: L },
    Checking { row: R, rest: L },
    CleaningUp { row: R, rest: L },
    Finished,
}

impl View for CleanupPhase<ArchivedGitWorktree<String>, Vec<ArchivedGitWorktree<String>>> {
    type V = CleanupPhase<ArchivedGitWorktree<Seq<char>>, Seq<ArchivedGitWorktree<Seq<char>>>>;

    open spec fn view(&self) -> CleanupPhase<
        ArchivedGitWorktree<Seq<char>>,
        Seq<ArchivedGitWorktree<Seq<char>>>,
    > {
        match self {
            CleanupPhase::FindingConnection => CleanupPhase::FindingConnection,
            CleanupPhase::Fetching => CleanupPhase::Fetching,
            CleanupPhase::Unlinking { rows } =>
                CleanupPhase::Unlinking { rows: records(rows@) },
            CleanupPhase::Checking { row, rest } =>
                CleanupPhase::Checking { row: row@, rest: records(rest@) },
            CleanupPhase::CleaningUp { row, rest } =>
                CleanupPhase::CleaningUp { row: row@, rest: records(rest@) },
            CleanupPhase::Finished => CleanupPhase::Finished,
        }
    }
}

/// A cleanup in progress.
#[derive(Debug, PartialEq, Eq)]
pub struct ThreadCleanup<R, L> {
    pub thread: ThreadId,
    pub connection: Option<ConnectionId>,
    pub phase: CleanupPhase<R, L>,
}

impl View for ThreadCleanup<ArchivedGitWorktree<String>, Vec<ArchivedGitWorktree<String>>> {
    type V = ThreadCleanup<ArchivedGitWorktree<Seq<char>>, Seq<ArchivedGitWorktree<Seq<char>>>>;

    open spec fn view(&self) -> ThreadCleanup<
        ArchivedGitWorktree<Seq<char>>,
        Seq<ArchivedGitWorktree<Seq<char>>>,
    > {
        ThreadCleanup {
            thread: self.thread,
            connection: self.connection,
            phase: self.phase@,
        }
    }
}

/// A record, in contracts.
pub type Record = ArchivedGitWorktree<Seq<char>>;

/// A cleanup, in contracts.
pub type Cleanup = ThreadCleanup<Record, Seq<Record>>;

/// The phase in which the records `todo` are still to be checked.
pub open spec fn checking(todo: Seq<Record>) -> CleanupPhase<Record, Seq<Record>> {
    if todo.len() == 0 {
        CleanupPhase::Finished
    } else {
        CleanupPhase::Checking { row: todo[0], rest: todo.drop_first() }
    }
}

impl ThreadCleanup<ArchivedGitWorktree<Seq<char>>, Seq<ArchivedGitWorktree<Seq<char>>>> {
    /// A cleanup before its first request.
    pub open spec fn starting(thread: ThreadId) -> Self {
        ThreadCleanup { thread, connection: None, phase: CleanupPhase::FindingConnection }
    }

    /// The same cleanup in another phase.
    pub open spec fn at(self, phase: CleanupPhase<Record, Seq<Record>>) -> Self {
        ThreadCleanup { phase, ..self }
    }

    /// The request that the cleanup waits for.
    pub open spec fn pending(self) -> CleanupAction<Record> {
        match self.phase {
            CleanupPhase::FindingConnection => CleanupAction::FindConnection(self.thread),
            CleanupPhase::Fetching => CleanupAction::FetchRecords(self.thread),
            CleanupPhase::Unlinking { .. } => CleanupAction::UnlinkThread(self.thread),
            CleanupPhase::Checking { row, .. } => CleanupAction::CheckReferenced { id: row.id },
            CleanupPhase::CleaningUp { row, .. } =>
                CleanupAction::CleanUpRecord { row, connection: self.connection },
            CleanupPhase::Finished => CleanupAction::Finish,
        }
    }

    /// The cleanup after `reply` to the pending request. A reply to another
    /// request changes nothing.
    pub open spec fn next(self, reply: CleanupReply<Seq<Record>>) -> Self {
        match (self.phase, reply) {
            (CleanupPhase::FindingConnection, CleanupReply::Connection(connection)) =>
                ThreadCleanup { connection, phase: CleanupPhase::Fetching, ..self },
            (CleanupPhase::Fetching, CleanupReply::Records(rows)) => match rows {
                Some(rows) => if rows.len() == 0 {
                    self.at(CleanupPhase::Finished)
                } else {
                    self.at(CleanupPhase::Unlinking { rows })
                },
                None => self.at(CleanupPhase::Finished),
            },
            (CleanupPhase::Unlinking { rows }, CleanupReply::Unlinked(unlinked)) => if unlinked {
                self.at(checking(rows))
            } else {
                self.at(CleanupPhase::Finished)
            },
            (CleanupPhase::Checking { row, rest }, CleanupReply::Referenced(referenced)) =>
                if referenced == Some(false) {
                    self.at(CleanupPhase::CleaningUp { row, rest })
                } else {
                    self.at(checking(rest))
                },
            (CleanupPhase::CleaningUp { rest, .. }, CleanupReply::CleanedUp) =>
                self.at(checking(rest)),
            _ => self,
        }
    }
}

/// Goes on to the next record that is to be checked.
fn check_next(todo: Vec<ArchivedGitWorktree<String>>) -> (r: CleanupPhase<
    ArchivedGitWorktree<String>,
    Vec<ArchivedGitWorktree<String>>,
>)
    ensures
        r@ == checking(records(todo@)),
{
    if todo.len() == 0 {
        CleanupPhase::Finished
    } else {
        let mut rest = todo;
        let row = rest.remove(0);
        assert(records(rest@) =~= records(todo@).drop_first());
        CleanupPhase::Checking { row, rest }
    }
}

impl ThreadCleanup<ArchivedGitWorktree<String>, Vec<ArchivedGitWorktree<String>>> {
    /// The request that the cleanup waits for.
    pub fn pending(&self) -> (r: CleanupAction<ArchivedGitWorktree<String>>)
        ensures
            r@ == self@.pending(),
    {
        match &self.phase {
            CleanupPhase::FindingConnection => CleanupAction::FindConnection(self.thread),
            CleanupPhase::Fetching => CleanupAction::FetchRecords(self.thread),
            CleanupPhase::Unlinking { .. } => CleanupAction::UnlinkThread(self.thread),
            CleanupPhase::Checking { row, .. } => CleanupAction::CheckReferenced { id: row.id },
            CleanupPhase::CleaningUp { row, .. } => CleanupAction::CleanUpRecord {
                row: row.duplicate(),
                connection: self.connection,
            },
            CleanupPhase::Finished => CleanupAction::Finish,
        }
    }

    /// Takes the answer to the pending request and moves on. An answer to
    /// another request is ignored.
    pub fn step(self, reply: CleanupReply<Vec<ArchivedGitWorktree<String>>>) -> (r: Self)
        ensures
            r@ == self@.next(reply@),
    {
        let ThreadCleanup { thread, connection, phase } = self;
        let (connection, phase) = match (phase, reply) {
            (CleanupPhase::FindingConnection, CleanupReply::Connection(found)) =>
                (found, CleanupPhase::Fetching),
            (CleanupPhase::Fetching, CleanupReply::Records(rows)) => match rows {
                Some(rows) => if rows.len() == 0 {
                    (connection, CleanupPhase::Finished)
                } else {
                    (connection, CleanupPhase::Unlinking { rows })
                },
                None => (connection, CleanupPhase::Finished),
            },
            (CleanupPhase::Unlinking { rows }, CleanupReply::Unlinked(unlinked)) => if unlinked {
                (connection, check_next(rows))
            } else {
                (connection, CleanupPhase::Finished)
            },
            (CleanupPhase::Checking { row, rest }, CleanupReply::Referenced(referenced)) =>
                match referenced {
                    Some(false) => (connection, CleanupPhase::CleaningUp { row, rest }),
                    _ => (connection, check_next(rest)),
                },
            (CleanupPhase::CleaningUp { rest, .. }, CleanupReply::CleanedUp) =>
                (connection, check_next(rest)),
            (phase, _) => (connection, phase),
        };
        ThreadCleanup { thread, connection, phase }
    }
}

/// Starts to clean up all archived worktree data associated with a thread that
/// is being deleted.
///
/// The thread is unlinked from all its archived worktrees. For any archived
/// worktree that is no longer referenced by any other thread, the git ref and
/// the record are deleted.
pub fn cleanup_thread_archived_worktrees(thread_id: ThreadId) -> (r: ThreadCleanup<
    ArchivedGitWorktree<String>,
    Vec<ArchivedGitWorktree<String>>,
>)
    ensures
        r@ == Cleanup::starting(thread_id),
{
    ThreadCleanup {
        thread: thread_id,
        connection: None,
        phase: CleanupPhase::FindingConnection,
    }
}

impl Process for ThreadCleanup<
    ArchivedGitWorktree<Seq<char>>,
    Seq<ArchivedGitWorktree<Seq<char>>>,
> {
    type Request = CleanupAction<ArchivedGitWorktree<Seq<char>>>;

    type Reply = CleanupReply<Seq<ArchivedGitWorktree<Seq<char>>>>;

    open spec fn awaits(self) -> CleanupAction<ArchivedGitWorktree<Seq<char>>> {
        self.pending()
    }

    open spec fn advance(self, reply: CleanupReply<Seq<ArchivedGitWorktree<Seq<char>>>>) -> Self {
        self.next(reply)
    }
}

/// A test of a request and the answer to it.
pub type CleanupExchange = spec_fn(CleanupAction<Record>, CleanupReply<Seq<Record>>) -> bool;

/// The thread was found to have `connection` on file.
pub open spec fn found_connection(
    thread: ThreadId,
    connection: Option<ConnectionId>,
) -> CleanupExchange {
    |q: CleanupAction<Record>, r: CleanupReply<Seq<Record>>|
        q == CleanupAction::<Record>::FindConnection(thread) && r == CleanupReply::<
            Seq<Record>,
        >::Connection(connection)
}

/// The thread's records were fetched, and are `rows`.
pub open spec fn fetched(thread: ThreadId, rows: Seq<Record>) -> CleanupExchange {
    |q: CleanupAction<Record>, r: CleanupReply<Seq<Record>>|
        q == CleanupAction::<Record>::FetchRecords(thread) && r == CleanupReply::Records(Some(rows))
}

/// The thread was unlinked from all its archived worktrees.
pub open spec fn unlinked(thread: ThreadId) -> CleanupExchange {
    |q: CleanupAction<Record>, r: CleanupReply<Seq<Record>>|
        q == CleanupAction::<Record>::UnlinkThread(thread) && r == CleanupReply::<
            Seq<Record>,
        >::Unlinked(true)
}

/// The record `id` was found to be linked to no thread.
pub open spec fn found_unreferenced(id: i64) -> CleanupExchange {
    |q: CleanupAction<Record>, r: CleanupReply<Seq<Record>>|
        q == (CleanupAction::<Record>::CheckReferenced { id }) && r == CleanupReply::<
            Seq<Record>,
        >::Referenced(Some(false))
}

/// The record `id` was found to be linked to a thread, or that could not be
/// found out.
pub open spec fn found_in_use(id: i64) -> CleanupExchange {
    |q: CleanupAction<Record>, r: CleanupReply<Seq<Record>>|
        q == (CleanupAction::<Record>::CheckReferenced { id }) && r is Referenced && r
            != CleanupReply::<Seq<Record>>::Referenced(Some(false))
}

/// It was tried to delete the record `row` and its git ref.
pub open spec fn cleaned_up(row: Record) -> CleanupExchange {
    |q: CleanupAction<Record>, r: CleanupReply<Seq<Record>>|
        q matches CleanupAction::CleanUpRecord { row: which, .. } && which == row && r is CleanedUp
}

/// Whether the fate of the record is settled: it is in use, or it was tried to
/// delete it.
pub open spec fn is_settled(
    thread: ThreadId,
    replies: Seq<CleanupReply<Seq<Record>>>,
    row: Record,
) -> bool {
    let start = Cleanup::starting(thread);
    happened(start, replies, found_in_use(row.id)) || happened(start, replies, cleaned_up(row))
}

/// Whether the fate of all `rows` is settled, except for those in `todo`.
pub open spec fn all_settled(
    thread: ThreadId,
    replies: Seq<CleanupReply<Seq<Record>>>,
    rows: Seq<Record>,
    todo: Seq<Record>,
) -> bool {
    forall|row: Record| #[trigger]
        rows.contains(row) ==> todo.contains(row) || is_settled(thread, replies, row)
}

/// Whether all of `todo` are among `rows`.
spec fn all_among(rows: Seq<Record>, todo: Seq<Record>) -> bool {
    forall|i: int| 0 <= i < todo.len() ==> rows.contains(#[trigger] todo[i])
}

spec fn consistent(
    thread: ThreadId,
    rows: Seq<Record>,
    replies: Seq<CleanupReply<Seq<Record>>>,
) -> bool {
    let start = Cleanup::starting(thread);
    let now = after(start, replies);
    let known = happened(start, replies, fetched(thread, rows));
    let free = happened(start, replies, unlinked(thread));
    &&& now.thread == thread
    &&& match now.phase {
        CleanupPhase::FindingConnection => !known && !free,
        CleanupPhase::Fetching => {
            &&& !known && !free
            &&& happened(start, replies, found_connection(thread, now.connection))
        },
        CleanupPhase::Unlinking { rows: held } => {
            &&& !free
            &&& known ==> held == rows
            &&& happened(start, replies, found_connection(thread, now.connection))
        },
        CleanupPhase::Checking { row, rest } => {
            let todo = seq![row] + rest;
            &&& free
            &&& known ==> all_among(rows, todo) && all_settled(thread, replies, rows, todo)
            &&& happened(start, replies, found_connection(thread, now.connection))
        },
        CleanupPhase::CleaningUp { row, rest } => {
            let todo = seq![row] + rest;
            &&& free
            &&& known ==> all_among(rows, todo) && all_settled(thread, replies, rows, todo)
            &&& happened(start, replies, found_connection(thread, now.connection))
            &&& happened_in_order(start, replies, unlinked(thread), found_unreferenced(row.id))
        },
        CleanupPhase::Finished => known && free ==> all_settled(
            thread,
            replies,
            rows,
            Seq::empty(),
        ),
    }
}

proof fn lemma_settled_last(
    thread: ThreadId,
    replies: Seq<CleanupReply<Seq<Record>>>,
    rows: Seq<Record>,
    todo: Seq<Record>,
    left: Seq<Record>,
)
    requires
        replies.len() > 0,
        all_settled(thread, replies.drop_last(), rows, todo),
        left == todo || (todo.len() > 0 && left == todo.drop_first() && ({
            let asked = after(Cleanup::starting(thread), replies.drop_last()).pending();
            found_in_use(todo[0].id)(asked, replies.last()) || cleaned_up(todo[0])(
                asked,
                replies.last(),
            )
        })),
    ensures
        all_settled(thread, replies, rows, left),
{
    let start = Cleanup::starting(thread);
    assert forall|row: Record| #[trigger] rows.contains(row) implies left.contains(row)
        || is_settled(thread, replies, row) by {
        lemma_happened_last(start, replies, found_in_use(row.id));
        lemma_happened_last(start, replies, cleaned_up(row));
        if todo.contains(row) && left != todo && row != todo[0] {
            let k = todo.index_of(row);
            assert(left[k - 1] == row);
        }
    }
}

proof fn lemma_at_checking(
    thread: ThreadId,
    rows: Seq<Record>,
    replies: Seq<CleanupReply<Seq<Record>>>,
    todo: Seq<Record>,
)
    requires
        ({
            let start = Cleanup::starting(thread);
            let now = after(start, replies);
            &&& now.thread == thread
            &&& now.phase == checking(todo)
            &&& happened(start, replies, unlinked(thread))
            &&& happened(start, replies, found_connection(thread, now.connection))
            &&& happened(start, replies, fetched(thread, rows)) ==> all_among(rows, todo)
                && all_settled(thread, replies, rows, todo)
        }),
    ensures
        consistent(thread, rows, replies),
{
    if todo.len() == 0 {
        assert(todo =~= Seq::empty());
    } else {
        assert(todo =~= seq![todo[0]] + todo.drop_first());
    }
}

proof fn lemma_consistent(
    thread: ThreadId,
    rows: Seq<Record>,
    replies: Seq<CleanupReply<Seq<Record>>>,
)
    ensures
        consistent(thread, rows, replies),
    decreases replies.len(),
{
    let start = Cleanup::starting(thread);
    if replies.len() == 0 {
        lemma_nothing_happened(start, replies, fetched(thread, rows));
        lemma_nothing_happened(start, replies, unlinked(thread));
    } else {
        let before = after(start, replies.drop_last());
        let now = after(start, replies);
        let reply = replies.last();
        lemma_consistent(thread, rows, replies.drop_last());
        lemma_happened_last(start, replies, fetched(thread, rows));
        lemma_happened_last(start, replies, unlinked(thread));
        lemma_happened_last(start, replies, found_connection(thread, now.connection));
        match before.phase {
            CleanupPhase::FindingConnection => {},
            CleanupPhase::Fetching => {
                if let CleanupReply::Records(Some(found)) = reply {
                    assert(happened(start, replies, fetched(thread, rows)) ==> found == rows);
                }
            },
            CleanupPhase::Unlinking { rows: held } => {
                if reply == CleanupReply::<Seq<Record>>::Unlinked(true) {
                    lemma_at_checking(thread, rows, replies, held);
                }
            },
            CleanupPhase::Checking { row, rest } => {
                let todo = seq![row] + rest;
                assert(todo.drop_first() =~= rest);
                if happened(start, replies, fetched(thread, rows)) {
                    if found_in_use(row.id)(before.pending(), reply) {
                        lemma_settled_last(thread, replies, rows, todo, rest);
                    } else {
                        lemma_settled_last(thread, replies, rows, todo, todo);
                    }
                    assert forall|i: int| 0 <= i < rest.len() implies rows.contains(
                        #[trigger] rest[i],
                    ) by {
                        assert(todo[i + 1] == rest[i]);
                    }
                }
                if let CleanupReply::Referenced(referenced) = reply {
                    if referenced == Some(false) {
                        lemma_happened_in_order_last(
                            start,
                            replies,
                            unlinked(thread),
                            found_unreferenced(row.id),
                        );
                    } else {
                        lemma_at_checking(thread, rows, replies, rest);
                    }
                }
            },
            CleanupPhase::CleaningUp { row, rest } => {
                let todo = seq![row] + rest;
                assert(todo.drop_first() =~= rest);
                lemma_happened_in_order_last(
                    start,
                    replies,
                    unlinked(thread),
                    found_unreferenced(row.id),
                );
                if happened(start, replies, fetched(thread, rows)) {
                    if reply is CleanedUp {
                        lemma_settled_last(thread, replies, rows, todo, rest);
                    } else {
                        lemma_settled_last(thread, replies, rows, todo, todo);
                    }
                    assert forall|i: int| 0 <= i < rest.len() implies rows.contains(
                        #[trigger] rest[i],
                    ) by {
                        assert(todo[i + 1] == rest[i]);
                    }
                }
                if reply is CleanedUp {
                    lemma_at_checking(thread, rows, replies, rest);
                }
            },
            CleanupPhase::Finished => {
                if happened(start, replies, fetched(thread, rows)) && happened(
                    start,
                    replies,
                    unlinked(thread),
                ) {
                    lemma_settled_last(thread, replies, rows, Seq::empty(), Seq::empty());
                }
            },
        }
    }
}

/// A record is only deleted after the thread was unlinked from it and it was
/// then found to be linked to no thread. The record is one of the thread's
/// own, and its repository is looked for over the thread's own connection.
pub proof fn only_unreferenced_records_are_cleaned_up(
    thread: ThreadId,
    rows: Seq<Record>,
    replies: Seq<CleanupReply<Seq<Record>>>,
)
    ensures
        ({
            let start = Cleanup::starting(thread);
            after(start, replies).pending() matches CleanupAction::CleanUpRecord { row, connection }
                ==> {
                &&& happened_in_order(start, replies, unlinked(thread), found_unreferenced(row.id))
                &&& happened(start, replies, fetched(thread, rows)) ==> rows.contains(row)
                &&& happened(start, replies, found_connection(thread, connection))
            }
        }),
{
    lemma_consistent(thread, rows, replies);
    if let CleanupPhase::CleaningUp { row, rest } = after(Cleanup::starting(thread), replies).phase {
        assert((seq![row] + rest)[0] == row);
    }
}

/// A cleanup that has ended after the thread was unlinked has settled the fate
/// of each of its records: some thread may still refer to it, or it was tried
/// to delete it.
pub proof fn finished_cleanups_leave_no_unreferenced_record(
    thread: ThreadId,
    rows: Seq<Record>,
    replies: Seq<CleanupReply<Seq<Record>>>,
)
    ensures
        ({
            let start = Cleanup::starting(thread);
            after(start, replies).phase is Finished && happened(
                start,
                replies,
                fetched(thread, rows),
            ) && happened(start, replies, unlinked(thread)) ==> all_settled(
                thread,
                replies,
                rows,
                Seq::empty(),
            )
        }),
{
    lemma_consistent(thread, rows, replies);
}

/// A cleanup that has not unlinked the thread deletes nothing, and does not
/// ask about any record.
pub proof fn linked_threads_keep_their_records(
    thread: ThreadId,
    replies: Seq<CleanupReply<Seq<Record>>>,
)
    ensures
        ({
            let start = Cleanup::starting(thread);
            let asked = after(start, replies).pending();
            !happened(start, replies, unlinked(thread)) ==> !(asked is CleanUpRecord)
                && !(asked is CheckReferenced)
        }),
{
    lemma_consistent(thread, Seq::empty(), replies);
}

} // verus!
