//! Deleting an archive record and its git ref, one step at a time.
use vstd::prelude::*;

use crate::model::{ArchivedGitWorktree, ConnectionId};
use crate::plan::RootPlan;
use crate::text::archived_worktree_ref_name;
#[allow(unused_imports)]
use crate::text::ref_name;
use crate::trace::Process;
#[allow(unused_imports)]
use crate::trace::{after, happened, lemma_happened_last};

verus! {

/// What is needed next to delete a record.
#[derive(Debug, PartialEq, Eq)]
pub enum RecordAction<S> {
    /// Open the main repository at `path`.
    OpenRepository { path: S, connection: Option<ConnectionId> },
    /// Delete the ref `name` from the main repository.
    DeleteRef { name: S },
    /// Delete the record `id` and its links to threads.
    DeleteRecord { id: i64 },
    /// Nothing: the deletion has ended.
    Finish,
}

impl View for RecordAction<String> {
    type V = RecordAction<Seq<char>>;

    open spec fn view(&self) -> RecordAction<Seq<char>> {
        match self {
            RecordAction::OpenRepository { path, connection } =>
                RecordAction::OpenRepository { path: path@, connection: *connection },
            RecordAction::DeleteRef { name } => RecordAction::DeleteRef { name: name@ },
            RecordAction::DeleteRecord { id } => RecordAction::DeleteRecord { id: *id },
            RecordAction::Finish => RecordAction::Finish,
        }
    }
}

/// What the environment answers to a [`RecordAction`]. Failures other than
/// that of opening the repository make no difference.
#[derive(Clone, Copy, Debug, PartialEq, Eq, Structural)]
pub enum RecordReply {
    /// To `OpenRepository`: whether it could be opened.
    Opened(bool),
    /// To `DeleteRef`: it was tried.
    RefDeleted,
    /// To `DeleteRecord`: it was tried.
    RecordDeleted,
}

/// How far the deletion of a record has come.
#[derive(Clone, Copy, Debug, PartialEq, Eq, Structural)]
pub enum RecordPhase {
    OpeningMain,
    DeletingRef,
    DeletingRecord,
    Finished,
}

/// A deletion in progress.
#[derive(Debug, PartialEq, Eq)]
pub struct RecordDeletion<S> {
    pub id: i64,
    pub main_repo_path: S,
    pub connection: Option<ConnectionId>,
    pub phase: RecordPhase,
}

impl View for RecordDeletion<String> {
    type V = RecordDeletion<Seq<char>>;

    open spec fn view(&self) -> RecordDeletion<Seq<char>> {
        RecordDeletion {
            id: self.id,
            main_repo_path: self.main_repo_path@,
            connection: self.connection,
            phase: self.phase,
        }
    }
}

impl RecordDeletion<Seq<char>> {
    /// A deletion before its first request.
    pub open spec fn starting(
        id: i64,
        main_repo_path: Seq<char>,
        connection: Option<ConnectionId>,
    ) -> Self {
        RecordDeletion { id, main_repo_path, connection, phase: RecordPhase::OpeningMain }
    }

    /// The request that the deletion waits for.
    pub open spec fn pending(self) -> RecordAction<Seq<char>> {
        match self.phase {
            RecordPhase::OpeningMain => RecordAction::OpenRepository {
                path: self.main_repo_path,
                connection: self.connection,
            },
            RecordPhase::DeletingRef => RecordAction::DeleteRef { name: ref_name(self.id as int) },
            RecordPhase::DeletingRecord => RecordAction::DeleteRecord { id: self.id },
            RecordPhase::Finished => RecordAction::Finish,
        }
    }

    /// The deletion after `reply` to the pending request. A reply to another
    /// request changes nothing.
    pub open spec fn next(self, reply: RecordReply) -> Self {
        let phase = match (self.phase, reply) {
            (RecordPhase::OpeningMain, RecordReply::Opened(true)) => RecordPhase::DeletingRef,
            (RecordPhase::OpeningMain, RecordReply::Opened(false)) => RecordPhase::DeletingRecord,
            (RecordPhase::DeletingRef, RecordReply::RefDeleted) => RecordPhase::DeletingRecord,
            (RecordPhase::DeletingRecord, RecordReply::RecordDeleted) => RecordPhase::Finished,
            (phase, _) => phase,
        };
        RecordDeletion { phase, ..self }
    }
}

impl RecordDeletion<String> {
    /// The request that the deletion waits for.
    pub fn pending(&self) -> (r: RecordAction<String>)
        ensures
            r@ == self@.pending(),
    {
        match self.phase {
            RecordPhase::OpeningMain => RecordAction::OpenRepository {
                path: self.main_repo_path.clone(),
                connection: self.connection,
            },
            RecordPhase::DeletingRef =>
                RecordAction::DeleteRef { name: archived_worktree_ref_name(self.id) },
            RecordPhase::DeletingRecord => RecordAction::DeleteRecord { id: self.id },
            RecordPhase::Finished => RecordAction::Finish,
        }
    }

    /// Takes the answer to the pending request and moves on. An answer to
    /// another request is ignored.
    pub fn step(self, reply: RecordReply) -> (r: Self)
        ensures
            r@ == self@.next(reply),
    {
        let phase = match (self.phase, reply) {
            (RecordPhase::OpeningMain, RecordReply::Opened(opened)) => {
                if opened {
                    RecordPhase::DeletingRef
                } else {
                    RecordPhase::DeletingRecord
                }
            },
            (RecordPhase::DeletingRef, RecordReply::RefDeleted) => RecordPhase::DeletingRecord,
            (RecordPhase::DeletingRecord, RecordReply::RecordDeleted) => RecordPhase::Finished,
            (phase, _) => phase,
        };
        RecordDeletion {
            id: self.id,
            main_repo_path: self.main_repo_path,
            connection: self.connection,
            phase,
        }
    }
}

/// Starts to undo a successful persist: deletes the git ref on the main repo
/// and removes the record. The commits are detached and move no branch, so no
/// git reset is needed; they will be garbage-collected once the ref is gone.
pub fn rollback_persist(archived_worktree_id: i64, root: &RootPlan) -> (r: RecordDeletion<String>)
    ensures
        r@ == RecordDeletion::starting(
            archived_worktree_id,
            root.main_repo_path@.text,
            root.remote_connection,
        ),
{
    RecordDeletion {
        id: archived_worktree_id,
        main_repo_path: root.main_repo_path.text(),
        connection: root.remote_connection,
        phase: RecordPhase::OpeningMain,
    }
}

/// Starts to delete the git ref and the records of a single archived worktree
/// that is no longer referenced by any thread.
pub fn cleanup_archived_worktree_record(
    row: &ArchivedGitWorktree<String>,
    remote_connection: Option<ConnectionId>,
) -> (r: RecordDeletion<String>)
    ensures
        r@ == RecordDeletion::starting(row.id, row@.main_repo_path, remote_connection),
{
    RecordDeletion {
        id: row.id,
        main_repo_path: row.main_repo_path.clone(),
        connection: remote_connection,
        phase: RecordPhase::OpeningMain,
    }
}

impl Process for RecordDeletion<Seq<char>> {
    type Request = RecordAction<Seq<char>>;

    type Reply = RecordReply;

    open spec fn awaits(self) -> RecordAction<Seq<char>> {
        self.pending()
    }

    open spec fn advance(self, reply: RecordReply) -> Self {
        self.next(reply)
    }
}

/// The main repository was opened, or not.
pub open spec fn main_opened(opened: bool) -> spec_fn(RecordAction<Seq<char>>, RecordReply) -> bool {
    |q: RecordAction<Seq<char>>, r: RecordReply| q is OpenRepository && r == RecordReply::Opened(opened)
}

/// It was tried to delete the ref of record `id`.
pub open spec fn ref_deleted(id: i64) -> spec_fn(RecordAction<Seq<char>>, RecordReply) -> bool {
    |q: RecordAction<Seq<char>>, r: RecordReply|
        q == (RecordAction::DeleteRef { name: ref_name(id as int) }) && r is RefDeleted
}

/// It was tried to delete the record `id`.
pub open spec fn record_deleted(id: i64) -> spec_fn(RecordAction<Seq<char>>, RecordReply) -> bool {
    |q: RecordAction<Seq<char>>, r: RecordReply|
        q == (RecordAction::<Seq<char>>::DeleteRecord { id }) && r is RecordDeleted
}

/// A deletion that has ended tried to delete the record, whatever went wrong
/// before, and its git ref, unless the main repository could not be opened.
pub proof fn deletions_reach_the_record(
    id: i64,
    main_repo_path: Seq<char>,
    connection: Option<ConnectionId>,
    replies: Seq<RecordReply>,
)
    ensures
        ({
            let start = RecordDeletion::starting(id, main_repo_path, connection);
            let now = after(start, replies);
            &&& now == (RecordDeletion { phase: now.phase, ..start })
            &&& now.phase is Finished ==> happened(start, replies, record_deleted(id))
            &&& now.phase is DeletingRecord || now.phase is Finished ==> happened(
                start,
                replies,
                ref_deleted(id),
            ) || happened(start, replies, main_opened(false))
        }),
    decreases replies.len(),
{
    let start = RecordDeletion::starting(id, main_repo_path, connection);
    if replies.len() > 0 {
        deletions_reach_the_record(id, main_repo_path, connection, replies.drop_last());
        lemma_happened_last(start, replies, record_deleted(id));
        lemma_happened_last(start, replies, ref_deleted(id));
        lemma_happened_last(start, replies, main_opened(false));
    }
}

} // verus!
