//! Saving the full git state of a worktree, one step at a time.
//!
//! The staged and the unstaged state go into two detached commits, which move
//! no branch. A record remembers them, the threads of the worktree are linked
//! to the record, and a ref on the main repository keeps the commits alive.
use vstd::prelude::*;

use crate::error::ArchiveError;
#[allow(unused_imports)]
use crate::model::{failure_text, optional_text};
use crate::model::{ConnectionId, Outcome, RepositoryId, ThreadId};
use crate::path::DiskPath;
#[allow(unused_imports)]
use crate::path::PathView;
use crate::plan::RootPlan;
#[allow(unused_imports)]
use crate::plan::PlanView;
use crate::text::archived_worktree_ref_name;
#[allow(unused_imports)]
use crate::text::ref_name;

verus! {

/// A thread, with the folders that it has open.
#[derive(Debug)]
pub struct ThreadEntry {
    pub id: ThreadId,
    pub folder_paths: Vec<DiskPath>,
}

/// Whether a thread has `root` open.
pub open spec fn is_on(thread: ThreadEntry, root: PathView) -> bool {
    exists|i: int|
        0 <= i < thread.folder_paths@.len() && #[trigger] thread.folder_paths@[i]@.same_as(root)
}

/// The thread, if it has `root` open.
pub open spec fn id_if_on(thread: ThreadEntry, root: PathView) -> Option<ThreadId> {
    if is_on(thread, root) {
        Some(thread.id)
    } else {
        None
    }
}

/// The threads that have `root` open, in the order in which they are stored.
pub open spec fn threads_on(threads: Seq<ThreadEntry>, root: PathView) -> Seq<ThreadId> {
    threads.filter_map(|thread: ThreadEntry| id_if_on(thread, root))
}

fn has_open(thread: &ThreadEntry, root: &DiskPath) -> (r: bool)
    ensures
        r == is_on(*thread, root@),
{
    let mut i: usize = 0;
    while i < thread.folder_paths.len()
        invariant
            i <= thread.folder_paths@.len(),
            forall|j: int|
                0 <= j < i ==> !(#[trigger] thread.folder_paths@[j]@.same_as(root@)),
        decreases thread.folder_paths@.len() - i,
    {
        if thread.folder_paths[i].is_same(root) {
            return true;
        }
        i += 1;
    }
    false
}

/// Finds the threads that have `root` open.
pub fn find_threads(threads: &Vec<ThreadEntry>, root: &DiskPath) -> (r: Vec<ThreadId>)
    ensures
        r@ == threads_on(threads@, root@),
{
    let ghost id_of = |thread: ThreadEntry| id_if_on(thread, root@);
    let mut r: Vec<ThreadId> = Vec::new();
    let mut i: usize = 0;
    assert(threads@.take(0) =~= Seq::empty());
    while i < threads.len()
        invariant
            id_of == (|thread: ThreadEntry| id_if_on(thread, root@)),
            i <= threads@.len(),
            r@ == threads@.take(i as int).filter_map(id_of),
        decreases threads@.len() - i,
    {
        proof {
            threads@.lemma_filter_map_take_succ(id_of, i as int);
        }
        if has_open(&threads[i], root) {
            r.push(threads[i].id);
        }
        i += 1;
    }
    assert(threads@.take(i as int) =~= threads@);
    r
}

/// What is needed next to save the state of a worktree.
#[derive(Debug, PartialEq, Eq)]
pub enum PersistAction<S> {
    /// Read the commit that HEAD points at.
    ReadHead { repository: RepositoryId },
    /// Write two detached commits: one whose tree is the index, on top of
    /// HEAD, and one whose tree has all files, on top of the first.
    CreateCheckpoint { repository: RepositoryId },
    /// Read the name of the branch that is checked out.
    ReadBranch { repository: RepositoryId },
    /// Write the record of the archived worktree.
    CreateRecord {
        worktree_path: S,
        main_repo_path: S,
        branch_name: Option<S>,
        staged: S,
        unstaged: S,
        original: S,
    },
    /// List all threads.
    ListThreads,
    /// Link `thread` to the record `id`.
    LinkThread { thread: ThreadId, id: i64 },
    /// Delete the record `id`.
    DeleteRecord { id: i64 },
    /// Open the main repository at `path`.
    OpenRepository { path: S, connection: Option<ConnectionId> },
    /// Let the ref `name` of the main repository point at `commit`.
    UpdateRef { name: S, commit: S },
    /// Nothing: the saving has ended.
    Finish,
}

impl View for PersistAction<String> {
    type V = PersistAction<Seq<char>>;

    open spec fn view(&self) -> PersistAction<Seq<char>> {
        match self {
            PersistAction::ReadHead { repository } =>
                PersistAction::ReadHead { repository: *repository },
            PersistAction::CreateCheckpoint { repository } =>
                PersistAction::CreateCheckpoint { repository: *repository },
            PersistAction::ReadBranch { repository } =>
                PersistAction::ReadBranch { repository: *repository },
            PersistAction::CreateRecord {
                worktree_path,
                main_repo_path,
                branch_name,
                staged,
                unstaged,
                original,
            } => PersistAction::CreateRecord {
                worktree_path: worktree_path@,
                main_repo_path: main_repo_path@,
                branch_name: optional_text(*branch_name),
                staged: staged@,
                unstaged: unstaged@,
                original: original@,
            },
            PersistAction::ListThreads => PersistAction::ListThreads,
            PersistAction::LinkThread { thread, id } =>
                PersistAction::LinkThread { thread: *thread, id: *id },
            PersistAction::DeleteRecord { id } => PersistAction::DeleteRecord { id: *id },
            PersistAction::OpenRepository { path, connection } =>
                PersistAction::OpenRepository { path: path@, connection: *connection },
            PersistAction::UpdateRef { name, commit } =>
                PersistAction::UpdateRef { name: name@, commit: commit@ },
            PersistAction::Finish => PersistAction::Finish,
        }
    }
}

/// The two commits of a checkpoint.
#[derive(Debug, PartialEq, Eq)]
pub struct Checkpoint<S> {
    pub staged: S,
    pub unstaged: S,
}

impl View for Checkpoint<String> {
    type V = Checkpoint<Seq<char>>;

    open spec fn view(&self) -> Checkpoint<Seq<char>> {
        Checkpoint { staged: self.staged@, unstaged: self.unstaged@ }
    }
}

/// What the environment answers to a [`PersistAction`]. `T` is a list of
/// threads.
#[derive(Debug)]
pub enum PersistReply<S, T> {
    /// To `ReadHead`.
    Head(Outcome<Option<S>, S>),
    /// To `CreateCheckpoint`.
    Checkpoint(Outcome<Checkpoint<S>, S>),
    /// To `ReadBranch`.
    Branch(Option<S>),
    /// To `CreateRecord`: the id of the record.
    Record(Result<i64, S>),
    /// To `ListThreads`.
    Threads(T),
    /// To `LinkThread`.
    Linked(Result<(), S>),
    /// To `DeleteRecord`: it was tried.
    RecordDeleted,
    /// To `OpenRepository`.
    Opened(Result<(), ArchiveError<S>>),
    /// To `UpdateRef`.
    RefUpdated(Outcome<(), S>),
}

impl View for PersistReply<String, Vec<ThreadEntry>> {
    type V = PersistReply<Seq<char>, Seq<ThreadEntry>>;

    open spec fn view(&self) -> PersistReply<Seq<char>, Seq<ThreadEntry>> {
        match self {
            PersistReply::Head(outcome) => PersistReply::Head(outcome@),
            PersistReply::Checkpoint(outcome) => PersistReply::Checkpoint(
                match outcome {
                    Outcome::Done(checkpoint) => Outcome::Done(checkpoint@),
                    Outcome::Failed(cause) => Outcome::Failed(cause@),
                    Outcome::Canceled => Outcome::Canceled,
                },
            ),
            PersistReply::Branch(branch) => PersistReply::Branch(optional_text(*branch)),
            PersistReply::Record(result) => PersistReply::Record(failure_text(*result)),
            PersistReply::Threads(threads) => PersistReply::Threads(threads@),
            PersistReply::Linked(result) => PersistReply::Linked(failure_text(*result)),
            PersistReply::RecordDeleted => PersistReply::RecordDeleted,
            PersistReply::Opened(result) => PersistReply::Opened(
                match result {
                    Ok(_) => Ok(()),
                    Err(error) => Err(error@),
                },
            ),
            PersistReply::RefUpdated(outcome) => PersistReply::RefUpdated(outcome@),
        }
    }
}

/// How far the saving has come. `I` is a list of thread ids.
#[derive(Debug, PartialEq, Eq)]
pub enum PersistPhase<S, I> {
    ReadingHead,
    Checkpointing { original: S },
    ReadingBranch { original: S, checkpoint: Checkpoint<S> },
    CreatingRecord { original: S, checkpoint: Checkpoint<S>, branch_name: Option<S> },
    ListingThreads { id: i64, unstaged: S },
    Linking { id: i64, unstaged: S, thread: ThreadId, rest: I },
    /// A thread could not be linked; the record goes again.
    DeletingRecord { id: i64, cause: S },
    OpeningMain { id: i64, unstaged: S },
    WritingRef { id: i64, unstaged: S },
    Finished(Result<i64, ArchiveError<S>>),
}

impl View for PersistPhase<String, Vec<ThreadId>> {
    type V = PersistPhase<Seq<char>, Seq<ThreadId>>;

    open spec fn view(&self) -> PersistPhase<Seq<char>, Seq<ThreadId>> {
        match self {
            PersistPhase::ReadingHead => PersistPhase::ReadingHead,
            PersistPhase::Checkpointing { original } =>
                PersistPhase::Checkpointing { original: original@ },
            PersistPhase::ReadingBranch { original, checkpoint } =>
                PersistPhase::ReadingBranch { original: original@, checkpoint: checkpoint@ },
            PersistPhase::CreatingRecord { original, checkpoint, branch_name } =>
                PersistPhase::CreatingRecord {
                    original: original@,
                    checkpoint: checkpoint@,
                    branch_name: optional_text(*branch_name),
                },
            PersistPhase::ListingThreads { id, unstaged } =>
                PersistPhase::ListingThreads { id: *id, unstaged: unstaged@ },
            PersistPhase::Linking { id, unstaged, thread, rest } => PersistPhase::Linking {
                id: *id,
                unstaged: unstaged@,
                thread: *thread,
                rest: rest@,
            },
            PersistPhase::DeletingRecord { id, cause } =>
                PersistPhase::DeletingRecord { id: *id, cause: cause@ },
            PersistPhase::OpeningMain { id, unstaged } =>
                PersistPhase::OpeningMain { id: *id, unstaged: unstaged@ },
            PersistPhase::WritingRef { id, unstaged } =>
                PersistPhase::WritingRef { id: *id, unstaged: unstaged@ },
            PersistPhase::Finished(Ok(id)) => PersistPhase::Finished(Ok(*id)),
            PersistPhase::Finished(Err(error)) => PersistPhase::Finished(Err(error@)),
        }
    }
}

/// A saving in progress. `P` is `RootPlan` in running code and `PlanView` in
/// contracts.
#[derive(Debug)]
pub struct PersistWorktree<S, P, I> {
    pub root: P,
    pub phase: PersistPhase<S, I>,
}

impl View for PersistWorktree<String, RootPlan, Vec<ThreadId>> {
    type V = PersistWorktree<Seq<char>, PlanView, Seq<ThreadId>>;

    open spec fn view(&self) -> PersistWorktree<Seq<char>, PlanView, Seq<ThreadId>> {
        PersistWorktree { root: self.root@, phase: self.phase@ }
    }
}

/// The phase in which the threads `todo` are still to be linked.
pub open spec fn linking(id: i64, unstaged: Seq<char>, todo: Seq<ThreadId>) -> PersistPhase<
    Seq<char>,
    Seq<ThreadId>,
> {
    if todo.len() == 0 {
        PersistPhase::OpeningMain { id, unstaged }
    } else {
        PersistPhase::Linking { id, unstaged, thread: todo[0], rest: todo.drop_first() }
    }
}

impl PersistWorktree<Seq<char>, PlanView, Seq<ThreadId>> {
    /// A saving before its first request.
    pub open spec fn starting(root: PlanView) -> Self {
        PersistWorktree { root, phase: PersistPhase::ReadingHead }
    }

    /// The same saving in another phase.
    pub open spec fn at(self, phase: PersistPhase<Seq<char>, Seq<ThreadId>>) -> Self {
        PersistWorktree { phase, ..self }
    }

    /// The saving, failed.
    pub open spec fn failed(self, error: ArchiveError<Seq<char>>) -> Self {
        self.at(PersistPhase::Finished(Err(error)))
    }

    /// The request that the saving waits for.
    pub open spec fn pending(self) -> PersistAction<Seq<char>> {
        let repository = self.root.worktree_repo;
        match self.phase {
            PersistPhase::ReadingHead => PersistAction::ReadHead { repository },
            PersistPhase::Checkpointing { .. } => PersistAction::CreateCheckpoint { repository },
            PersistPhase::ReadingBranch { .. } => PersistAction::ReadBranch { repository },
            PersistPhase::CreatingRecord { original, checkpoint, branch_name } =>
                PersistAction::CreateRecord {
                    worktree_path: self.root.root_path.text,
                    main_repo_path: self.root.main_repo_path.text,
                    branch_name,
                    staged: checkpoint.staged,
                    unstaged: checkpoint.unstaged,
                    original,
                },
            PersistPhase::ListingThreads { .. } => PersistAction::ListThreads,
            PersistPhase::Linking { id, thread, .. } => PersistAction::LinkThread { thread, id },
            PersistPhase::DeletingRecord { id, .. } => PersistAction::DeleteRecord { id },
            PersistPhase::OpeningMain { .. } => PersistAction::OpenRepository {
                path: self.root.main_repo_path.text,
                connection: self.root.remote_connection,
            },
            PersistPhase::WritingRef { id, unstaged } =>
                PersistAction::UpdateRef { name: ref_name(id as int), commit: unstaged },
            PersistPhase::Finished(_) => PersistAction::Finish,
        }
    }

    /// The saving once HEAD is known.
    pub open spec fn head_known(self, outcome: Outcome<Option<Seq<char>>, Seq<char>>) -> Self {
        match outcome {
            Outcome::Done(Some(original)) => self.at(PersistPhase::Checkpointing { original }),
            Outcome::Done(None) => self.failed(ArchiveError::HeadMissing),
            Outcome::Failed(cause) => self.failed(ArchiveError::HeadUnreadable { cause }),
            Outcome::Canceled => self.failed(ArchiveError::HeadCanceled),
        }
    }

    /// The saving once the checkpoint is written. A plan that names no branch
    /// has the repository asked for it.
    pub open spec fn checkpoint_written(
        self,
        original: Seq<char>,
        outcome: Outcome<Checkpoint<Seq<char>>, Seq<char>>,
    ) -> Self {
        match outcome {
            Outcome::Done(checkpoint) => match self.root.branch_name {
                Some(branch) => self.at(
                    PersistPhase::CreatingRecord { original, checkpoint, branch_name: Some(branch) },
                ),
                None => self.at(PersistPhase::ReadingBranch { original, checkpoint }),
            },
            Outcome::Failed(cause) => self.failed(ArchiveError::CheckpointFailed { cause }),
            Outcome::Canceled => self.failed(ArchiveError::CheckpointCanceled),
        }
    }

    /// The saving after the ref was to be written.
    pub open spec fn ref_written(self, id: i64, outcome: Outcome<(), Seq<char>>) -> Self {
        let name = ref_name(id as int);
        match outcome {
            Outcome::Done(_) => self.at(PersistPhase::Finished(Ok(id))),
            Outcome::Failed(cause) => self.failed(ArchiveError::RefCreation { name, cause }),
            Outcome::Canceled => self.failed(
                ArchiveError::RefCreation { name, cause: "update_ref canceled"@ },
            ),
        }
    }

    /// The saving after `reply` to the pending request. A reply to another
    /// request changes nothing.
    pub open spec fn next(self, reply: PersistReply<Seq<char>, Seq<ThreadEntry>>) -> Self {
        match (self.phase, reply) {
            (PersistPhase::ReadingHead, PersistReply::Head(outcome)) => self.head_known(outcome),
            (PersistPhase::Checkpointing { original }, PersistReply::Checkpoint(outcome)) =>
                self.checkpoint_written(original, outcome),
            (PersistPhase::ReadingBranch { original, checkpoint }, PersistReply::Branch(branch_name)) =>
                self.at(PersistPhase::CreatingRecord { original, checkpoint, branch_name }),
            (PersistPhase::CreatingRecord { checkpoint, .. }, PersistReply::Record(result)) =>
                match result {
                    Ok(id) => self.at(
                        PersistPhase::ListingThreads { id, unstaged: checkpoint.unstaged },
                    ),
                    Err(cause) => self.failed(ArchiveError::RecordCreation { cause }),
                },
            (PersistPhase::ListingThreads { id, unstaged }, PersistReply::Threads(threads)) =>
                self.at(linking(id, unstaged, threads_on(threads, self.root.root_path))),
            (PersistPhase::Linking { id, unstaged, rest, .. }, PersistReply::Linked(result)) =>
                match result {
                    Ok(_) => self.at(linking(id, unstaged, rest)),
                    Err(cause) => self.at(PersistPhase::DeletingRecord { id, cause }),
                },
            (PersistPhase::DeletingRecord { cause, .. }, PersistReply::RecordDeleted) =>
                self.failed(ArchiveError::ThreadLink { cause }),
            (PersistPhase::OpeningMain { id, unstaged }, PersistReply::Opened(result)) =>
                match result {
                    Ok(_) => self.at(PersistPhase::WritingRef { id, unstaged }),
                    Err(error) => self.failed(ArchiveError::MainRepository { cause: error.text() }),
                },
            (PersistPhase::WritingRef { id, .. }, PersistReply::RefUpdated(outcome)) =>
                self.ref_written(id, outcome),
            _ => self,
        }
    }

    /// How the saving ended, once it has.
    pub open spec fn outcome(self) -> Option<Result<i64, ArchiveError<Seq<char>>>> {
        match self.phase {
            PersistPhase::Finished(result) => Some(result),
            _ => None,
        }
    }
}

/// Goes on to the next thread that is to be linked.
fn link_next(id: i64, unstaged: String, todo: Vec<ThreadId>) -> (r: PersistPhase<
    String,
    Vec<ThreadId>,
>)
    ensures
        r@ == linking(id, unstaged@, todo@),
{
    if todo.len() == 0 {
        PersistPhase::OpeningMain { id, unstaged }
    } else {
        let mut rest = todo;
        let thread = rest.remove(0);
        assert(rest@ =~= todo@.drop_first());
        PersistPhase::Linking { id, unstaged, thread, rest }
    }
}

impl PersistWorktree<String, RootPlan, Vec<ThreadId>> {
    /// The request that the saving waits for.
    pub fn pending(&self) -> (r: PersistAction<String>)
        ensures
            r@ == self@.pending(),
    {
        let repository = self.root.worktree_repo;
        match &self.phase {
            PersistPhase::ReadingHead => PersistAction::ReadHead { repository },
            PersistPhase::Checkpointing { .. } => PersistAction::CreateCheckpoint { repository },
            PersistPhase::ReadingBranch { .. } => PersistAction::ReadBranch { repository },
            PersistPhase::CreatingRecord { original, checkpoint, branch_name } =>
                PersistAction::CreateRecord {
                    worktree_path: self.root.root_path.text(),
                    main_repo_path: self.root.main_repo_path.text(),
                    branch_name: branch_name.clone(),
                    staged: checkpoint.staged.clone(),
                    unstaged: checkpoint.unstaged.clone(),
                    original: original.clone(),
                },
            PersistPhase::ListingThreads { .. } => PersistAction::ListThreads,
            PersistPhase::Linking { id, thread, .. } =>
                PersistAction::LinkThread { thread: *thread, id: *id },
            PersistPhase::DeletingRecord { id, .. } => PersistAction::DeleteRecord { id: *id },
            PersistPhase::OpeningMain { .. } => PersistAction::OpenRepository {
                path: self.root.main_repo_path.text(),
                connection: self.root.remote_connection,
            },
            PersistPhase::WritingRef { id, unstaged } => PersistAction::UpdateRef {
                name: archived_worktree_ref_name(*id),
                commit: unstaged.clone(),
            },
            PersistPhase::Finished(_) => PersistAction::Finish,
        }
    }

    /// Takes the answer to the pending request and moves on. An answer to
    /// another request is ignored.
    pub fn step(self, reply: PersistReply<String, Vec<ThreadEntry>>) -> (r: Self)
        ensures
            r@ == self@.next(reply@),
    {
        let PersistWorktree { root, phase } = self;
        let phase = match (phase, reply) {
            (PersistPhase::ReadingHead, PersistReply::Head(outcome)) => match outcome {
                Outcome::Done(Some(original)) => PersistPhase::Checkpointing { original },
                Outcome::Done(None) => PersistPhase::Finished(Err(ArchiveError::HeadMissing)),
                Outcome::Failed(cause) =>
                    PersistPhase::Finished(Err(ArchiveError::HeadUnreadable { cause })),
                Outcome::Canceled => PersistPhase::Finished(Err(ArchiveError::HeadCanceled)),
            },
            (PersistPhase::Checkpointing { original }, PersistReply::Checkpoint(outcome)) =>
                match outcome {
                    Outcome::Done(checkpoint) => {
                        let branch_name = root.branch_name.clone();
                        if branch_name.is_some() {
                            PersistPhase::CreatingRecord { original, checkpoint, branch_name }
                        } else {
                            PersistPhase::ReadingBranch { original, checkpoint }
                        }
                    },
                    Outcome::Failed(cause) =>
                        PersistPhase::Finished(Err(ArchiveError::CheckpointFailed { cause })),
                    Outcome::Canceled =>
                        PersistPhase::Finished(Err(ArchiveError::CheckpointCanceled)),
                },
            (PersistPhase::ReadingBranch { original, checkpoint }, PersistReply::Branch(branch_name)) =>
                PersistPhase::CreatingRecord { original, checkpoint, branch_name },
            (PersistPhase::CreatingRecord { checkpoint, .. }, PersistReply::Record(result)) =>
                match result {
                    Ok(id) => PersistPhase::ListingThreads { id, unstaged: checkpoint.unstaged },
                    Err(cause) =>
                        PersistPhase::Finished(Err(ArchiveError::RecordCreation { cause })),
                },
            (PersistPhase::ListingThreads { id, unstaged }, PersistReply::Threads(threads)) => {
                let todo = find_threads(&threads, &root.root_path);
                link_next(id, unstaged, todo)
            },
            (PersistPhase::Linking { id, unstaged, rest, .. }, PersistReply::Linked(result)) =>
                match result {
                    Ok(_) => link_next(id, unstaged, rest),
                    Err(cause) => PersistPhase::DeletingRecord { id, cause },
                },
            (PersistPhase::DeletingRecord { cause, .. }, PersistReply::RecordDeleted) =>
                PersistPhase::Finished(Err(ArchiveError::ThreadLink { cause })),
            (PersistPhase::OpeningMain { id, unstaged }, PersistReply::Opened(result)) =>
                match result {
                    Ok(_) => PersistPhase::WritingRef { id, unstaged },
                    Err(error) => PersistPhase::Finished(
                        Err(ArchiveError::MainRepository { cause: error.message() }),
                    ),
                },
            (PersistPhase::WritingRef { id, .. }, PersistReply::RefUpdated(outcome)) =>
                match outcome {
                    Outcome::Done(_) => PersistPhase::Finished(Ok(id)),
                    Outcome::Failed(cause) => PersistPhase::Finished(
                        Err(
                            ArchiveError::RefCreation {
                                name: archived_worktree_ref_name(id),
                                cause,
                            },
                        ),
                    ),
                    Outcome::Canceled => PersistPhase::Finished(
                        Err(
                            ArchiveError::RefCreation {
                                name: archived_worktree_ref_name(id),
                                cause: "update_ref canceled".to_owned(),
                            },
                        ),
                    ),
                },
            (phase, _) => phase,
        };
        PersistWorktree { root, phase }
    }

    /// The id of the record, or why the state could not be saved. `None` while
    /// a request is pending.
    pub fn finish(self) -> (r: Option<Result<i64, ArchiveError<String>>>)
        ensures
            match r {
                Some(Ok(id)) => self@.outcome() == Some(Ok::<_, ArchiveError<Seq<char>>>(id)),
                Some(Err(error)) => self@.outcome() == Some(Err::<i64, _>(error@)),
                None => self@.outcome() is None,
            },
    {
        match self.phase {
            PersistPhase::Finished(result) => Some(result),
            _ => None,
        }
    }
}

/// Starts to save the worktree's full git state so that it can be restored
/// later. On success the outcome is the id of the record, for a rollback.
pub fn persist_worktree_state(root: &RootPlan) -> (r: PersistWorktree<
    String,
    RootPlan,
    Vec<ThreadId>,
>)
    ensures
        r@ == PersistWorktree::starting(root@),
{
    PersistWorktree { root: root.duplicate(), phase: PersistPhase::ReadingHead }
}

} // verus!
