//! Removing an archived worktree from its projects and from disk, one step at
//! a time.
use vstd::prelude::*;

use crate::error::ArchiveError;
use crate::model::{ConnectionId, Outcome, ProjectId};
use crate::plan::{AffectedProject, RootPlan};
#[allow(unused_imports)]
use crate::plan::PlanView;
use crate::trace::Process;
#[allow(unused_imports)]
use crate::trace::{after, happened, lemma_happened_last, lemma_nothing_happened};

verus! {

/// What is needed next to remove a worktree.
#[derive(Debug, PartialEq, Eq)]
pub enum RemoveAction<S> {
    /// Let the project remove its worktree, and keep the wait for its release.
    Detach(AffectedProject),
    /// Wait until the project has released its worktree.
    AwaitRelease(AffectedProject),
    /// Open the main repository at `path`.
    OpenRepository { path: S, connection: Option<ConnectionId> },
    /// `git worktree remove --force` of `path` in the main repository, which
    /// deletes the directory first.
    RemoveWorktree { path: S },
    /// Load the directory `path` into the project again.
    ReAdd { project: ProjectId, path: S },
    /// Nothing: the removal has ended.
    Finish,
}

impl View for RemoveAction<String> {
    type V = RemoveAction<Seq<char>>;

    open spec fn view(&self) -> RemoveAction<Seq<char>> {
        match self {
            RemoveAction::Detach(affected) => RemoveAction::Detach(*affected),
            RemoveAction::AwaitRelease(affected) => RemoveAction::AwaitRelease(*affected),
            RemoveAction::OpenRepository { path, connection } =>
                RemoveAction::OpenRepository { path: path@, connection: *connection },
            RemoveAction::RemoveWorktree { path } => RemoveAction::RemoveWorktree { path: path@ },
            RemoveAction::ReAdd { project, path } =>
                RemoveAction::ReAdd { project: *project, path: path@ },
            RemoveAction::Finish => RemoveAction::Finish,
        }
    }
}

/// What the environment answers to a [`RemoveAction`].
#[derive(Debug, PartialEq, Eq)]
pub enum RemoveReply<S> {
    /// To `Detach`.
    Detached,
    /// To `AwaitRelease`. A failure to wait makes no difference.
    Released,
    /// To `OpenRepository`.
    Opened(Result<(), ArchiveError<S>>),
    /// To `RemoveWorktree`.
    Removed(Outcome<(), S>),
    /// To `ReAdd`: it was tried.
    ReAdded,
}

impl View for RemoveReply<String> {
    type V = RemoveReply<Seq<char>>;

    open spec fn view(&self) -> RemoveReply<Seq<char>> {
        match self {
            RemoveReply::Detached => RemoveReply::Detached,
            RemoveReply::Released => RemoveReply::Released,
            RemoveReply::Opened(Ok(_)) => RemoveReply::Opened(Ok(())),
            RemoveReply::Opened(Err(error)) => RemoveReply::Opened(Err(error@)),
            RemoveReply::Removed(outcome) => RemoveReply::Removed(outcome@),
            RemoveReply::ReAdded => RemoveReply::ReAdded,
        }
    }
}

/// How far a removal has come. `A` is a list of affected projects, those that
/// are still to come.
#[derive(Debug, PartialEq, Eq)]
pub enum RemovePhase<S, A> {
    Detaching { affected: AffectedProject, rest: A },
    AwaitingRelease { affected: AffectedProject, rest: A },
    OpeningMain,
    Removing,
    /// The removal failed; the worktree goes back into the projects.
    ReAdding { error: ArchiveError<S>, affected: AffectedProject, rest: A },
    Finished(Result<(), ArchiveError<S>>),
}

impl View for RemovePhase<String, Vec<AffectedProject>> {
    type V = RemovePhase<Seq<char>, Seq<AffectedProject>>;

    open spec fn view(&self) -> RemovePhase<Seq<char>, Seq<AffectedProject>> {
        match self {
            RemovePhase::Detaching { affected, rest } =>
                RemovePhase::Detaching { affected: *affected, rest: rest@ },
            RemovePhase::AwaitingRelease { affected, rest } =>
                RemovePhase::AwaitingRelease { affected: *affected, rest: rest@ },
            RemovePhase::OpeningMain => RemovePhase::OpeningMain,
            RemovePhase::Removing => RemovePhase::Removing,
            RemovePhase::ReAdding { error, affected, rest } =>
                RemovePhase::ReAdding { error: error@, affected: *affected, rest: rest@ },
            RemovePhase::Finished(Ok(_)) => RemovePhase::Finished(Ok(())),
            RemovePhase::Finished(Err(error)) => RemovePhase::Finished(Err(error@)),
        }
    }
}

/// A removal in progress. `P` is `RootPlan` in running code and `PlanView` in
/// contracts.
#[derive(Debug)]
pub struct RemoveRoot<S, P, A> {
    pub root: P,
    pub phase: RemovePhase<S, A>,
}

impl View for RemoveRoot<String, RootPlan, Vec<AffectedProject>> {
    type V = RemoveRoot<Seq<char>, PlanView, Seq<AffectedProject>>;

    open spec fn view(&self) -> RemoveRoot<Seq<char>, PlanView, Seq<AffectedProject>> {
        RemoveRoot { root: self.root@, phase: self.phase@ }
    }
}

/// The phase in which the projects `todo` still have to release the worktree.
pub open spec fn releasing(todo: Seq<AffectedProject>) -> RemovePhase<
    Seq<char>,
    Seq<AffectedProject>,
> {
    if todo.len() == 0 {
        RemovePhase::OpeningMain
    } else {
        RemovePhase::AwaitingRelease { affected: todo[0], rest: todo.drop_first() }
    }
}

/// The phase in which the projects `todo`, out of `all`, still have to remove
/// the worktree. Only then their releases are waited for.
pub open spec fn detaching(
    todo: Seq<AffectedProject>,
    all: Seq<AffectedProject>,
) -> RemovePhase<Seq<char>, Seq<AffectedProject>> {
    if todo.len() == 0 {
        releasing(all)
    } else {
        RemovePhase::Detaching { affected: todo[0], rest: todo.drop_first() }
    }
}

/// The phase in which the projects `todo` still have to get the worktree back.
pub open spec fn re_adding(
    error: ArchiveError<Seq<char>>,
    todo: Seq<AffectedProject>,
) -> RemovePhase<Seq<char>, Seq<AffectedProject>> {
    if todo.len() == 0 {
        RemovePhase::Finished(Err(error))
    } else {
        RemovePhase::ReAdding { error, affected: todo[0], rest: todo.drop_first() }
    }
}

impl RemoveRoot<Seq<char>, PlanView, Seq<AffectedProject>> {
    /// A removal before its first request.
    pub open spec fn starting(root: PlanView) -> Self {
        RemoveRoot { root, phase: detaching(root.affected_projects, root.affected_projects) }
    }

    /// The same removal in another phase.
    pub open spec fn at(self, phase: RemovePhase<Seq<char>, Seq<AffectedProject>>) -> Self {
        RemoveRoot { phase, ..self }
    }

    /// The removal, failed, with all projects still to get the worktree back.
    pub open spec fn rolling_back(self, error: ArchiveError<Seq<char>>) -> Self {
        self.at(re_adding(error, self.root.affected_projects))
    }

    /// The request that the removal waits for.
    pub open spec fn pending(self) -> RemoveAction<Seq<char>> {
        match self.phase {
            RemovePhase::Detaching { affected, .. } => RemoveAction::Detach(affected),
            RemovePhase::AwaitingRelease { affected, .. } => RemoveAction::AwaitRelease(affected),
            RemovePhase::OpeningMain => RemoveAction::OpenRepository {
                path: self.root.main_repo_path.text,
                connection: self.root.remote_connection,
            },
            RemovePhase::Removing =>
                RemoveAction::RemoveWorktree { path: self.root.root_path.text },
            RemovePhase::ReAdding { affected, .. } => RemoveAction::ReAdd {
                project: affected.project,
                path: self.root.root_path.text,
            },
            RemovePhase::Finished(_) => RemoveAction::Finish,
        }
    }

    /// The removal after `reply` to the pending request. A reply to another
    /// request changes nothing.
    pub open spec fn next(self, reply: RemoveReply<Seq<char>>) -> Self {
        match (self.phase, reply) {
            (RemovePhase::Detaching { rest, .. }, RemoveReply::Detached) =>
                self.at(detaching(rest, self.root.affected_projects)),
            (RemovePhase::AwaitingRelease { rest, .. }, RemoveReply::Released) =>
                self.at(releasing(rest)),
            (RemovePhase::OpeningMain, RemoveReply::Opened(result)) => match result {
                Ok(_) => self.at(RemovePhase::Removing),
                Err(error) => self.rolling_back(error),
            },
            (RemovePhase::Removing, RemoveReply::Removed(outcome)) => match outcome {
                Outcome::Done(_) => self.at(RemovePhase::Finished(Ok(()))),
                Outcome::Failed(cause) =>
                    self.rolling_back(ArchiveError::MetadataCleanup { cause }),
                Outcome::Canceled => self.rolling_back(ArchiveError::MetadataCleanupCanceled),
            },
            (RemovePhase::ReAdding { error, rest, .. }, RemoveReply::ReAdded) =>
                self.at(re_adding(error, rest)),
            _ => self,
        }
    }

    /// How the removal ended, once it has.
    pub open spec fn outcome(self) -> Option<Result<(), ArchiveError<Seq<char>>>> {
        match self.phase {
            RemovePhase::Finished(result) => Some(result),
            _ => None,
        }
    }
}

fn release_next(todo: Vec<AffectedProject>) -> (r: RemovePhase<String, Vec<AffectedProject>>)
    ensures
        r@ == releasing(todo@),
{
    if todo.len() == 0 {
        RemovePhase::OpeningMain
    } else {
        let mut rest = todo;
        let affected = rest.remove(0);
        assert(rest@ =~= todo@.drop_first());
        RemovePhase::AwaitingRelease { affected, rest }
    }
}

fn detach_next(todo: Vec<AffectedProject>, all: &Vec<AffectedProject>) -> (r: RemovePhase<
    String,
    Vec<AffectedProject>,
>)
    ensures
        r@ == detaching(todo@, all@),
{
    if todo.len() == 0 {
        let again = all.clone();
        assert(again@ =~= all@);
        release_next(again)
    } else {
        let mut rest = todo;
        let affected = rest.remove(0);
        assert(rest@ =~= todo@.drop_first());
        RemovePhase::Detaching { affected, rest }
    }
}

fn re_add_next(error: ArchiveError<String>, todo: Vec<AffectedProject>) -> (r: RemovePhase<
    String,
    Vec<AffectedProject>,
>)
    ensures
        r@ == re_adding(error@, todo@),
{
    if todo.len() == 0 {
        RemovePhase::Finished(Err(error))
    } else {
        let mut rest = todo;
        let affected = rest.remove(0);
        assert(rest@ =~= todo@.drop_first());
        RemovePhase::ReAdding { error, affected, rest }
    }
}

/// Starts to give the worktree back to every affected project after a failed
/// removal.
fn rollback_root(root: &RootPlan, error: ArchiveError<String>) -> (r: RemovePhase<
    String,
    Vec<AffectedProject>,
>)
    ensures
        r@ == re_adding(error@, root@.affected_projects),
{
    let all = root.affected_projects.clone();
    assert(all@ =~= root.affected_projects@);
    re_add_next(error, all)
}

impl RemoveRoot<String, RootPlan, Vec<AffectedProject>> {
    /// The request that the removal waits for.
    pub fn pending(&self) -> (r: RemoveAction<String>)
        ensures
            r@ == self@.pending(),
    {
        match &self.phase {
            RemovePhase::Detaching { affected, .. } => RemoveAction::Detach(*affected),
            RemovePhase::AwaitingRelease { affected, .. } => RemoveAction::AwaitRelease(*affected),
            RemovePhase::OpeningMain => RemoveAction::OpenRepository {
                path: self.root.main_repo_path.text(),
                connection: self.root.remote_connection,
            },
            RemovePhase::Removing =>
                RemoveAction::RemoveWorktree { path: self.root.root_path.text() },
            RemovePhase::ReAdding { affected, .. } => RemoveAction::ReAdd {
                project: affected.project,
                path: self.root.root_path.text(),
            },
            RemovePhase::Finished(_) => RemoveAction::Finish,
        }
    }

    /// Takes the answer to the pending request and moves on. An answer to
    /// another request is ignored.
    pub fn step(self, reply: RemoveReply<String>) -> (r: Self)
        ensures
            r@ == self@.next(reply@),
    {
        let RemoveRoot { root, phase } = self;
        let phase = match (phase, reply) {
            (RemovePhase::Detaching { rest, .. }, RemoveReply::Detached) =>
                detach_next(rest, &root.affected_projects),
            (RemovePhase::AwaitingRelease { rest, .. }, RemoveReply::Released) =>
                release_next(rest),
            (RemovePhase::OpeningMain, RemoveReply::Opened(result)) => match result {
                Ok(_) => RemovePhase::Removing,
                Err(error) => rollback_root(&root, error),
            },
            (RemovePhase::Removing, RemoveReply::Removed(outcome)) => match outcome {
                Outcome::Done(_) => RemovePhase::Finished(Ok(())),
                Outcome::Failed(cause) =>
                    rollback_root(&root, ArchiveError::MetadataCleanup { cause }),
                Outcome::Canceled => rollback_root(&root, ArchiveError::MetadataCleanupCanceled),
            },
            (RemovePhase::ReAdding { error, rest, .. }, RemoveReply::ReAdded) =>
                re_add_next(error, rest),
            (phase, _) => phase,
        };
        RemoveRoot { root, phase }
    }

    /// Whether the worktree was removed, or why not. `None` while a request is
    /// pending.
    pub fn finish(self) -> (r: Option<Result<(), ArchiveError<String>>>)
        ensures
            match r {
                Some(Ok(_)) => self@.outcome() == Some(Ok::<(), ArchiveError<Seq<char>>>(())),
                Some(Err(error)) => self@.outcome() == Some(Err::<(), _>(error@)),
                None => self@.outcome() is None,
            },
    {
        match self.phase {
            RemovePhase::Finished(result) => Some(result),
            _ => None,
        }
    }
}

/// Starts to remove a worktree from all affected projects and to delete it
/// from disk via `git worktree remove`.
///
/// The worktree is first detached from every affected project, and each
/// project's release of it is waited for. Then the main repository is asked to
/// delete the worktree directory. If that fails, the worktree is added to each
/// project again.
pub fn remove_root(root: RootPlan) -> (r: RemoveRoot<String, RootPlan, Vec<AffectedProject>>)
    ensures
        r@ == RemoveRoot::starting(root@),
{
    let todo = root.affected_projects.clone();
    assert(todo@ =~= root.affected_projects@);
    let phase = detach_next(todo, &root.affected_projects);
    RemoveRoot { root, phase }
}

impl Process for RemoveRoot<Seq<char>, PlanView, Seq<AffectedProject>> {
    type Request = RemoveAction<Seq<char>>;

    type Reply = RemoveReply<Seq<char>>;

    open spec fn awaits(self) -> RemoveAction<Seq<char>> {
        self.pending()
    }

    open spec fn advance(self, reply: RemoveReply<Seq<char>>) -> Self {
        self.next(reply)
    }
}

/// A removal, in contracts.
pub type Removal = RemoveRoot<Seq<char>, PlanView, Seq<AffectedProject>>;

/// A test of a request and the answer to it.
pub type RemoveExchange = spec_fn(RemoveAction<Seq<char>>, RemoveReply<Seq<char>>) -> bool;

/// The project has removed its worktree.
pub open spec fn detached(affected: AffectedProject) -> RemoveExchange {
    |q: RemoveAction<Seq<char>>, r: RemoveReply<Seq<char>>|
        q == RemoveAction::<Seq<char>>::Detach(affected) && r is Detached
}

/// The project's release of its worktree was waited for.
pub open spec fn released(affected: AffectedProject) -> RemoveExchange {
    |q: RemoveAction<Seq<char>>, r: RemoveReply<Seq<char>>|
        q == RemoveAction::<Seq<char>>::AwaitRelease(affected) && r is Released
}

/// The worktree at `path` was removed.
pub open spec fn removed(path: Seq<char>) -> RemoveExchange {
    |q: RemoveAction<Seq<char>>, r: RemoveReply<Seq<char>>|
        q == (RemoveAction::RemoveWorktree { path }) && r matches RemoveReply::Removed(
            Outcome::Done(_),
        )
}

/// It was tried to load `path` into the project again.
pub open spec fn re_added(project: ProjectId, path: Seq<char>) -> RemoveExchange {
    |q: RemoveAction<Seq<char>>, r: RemoveReply<Seq<char>>|
        q == (RemoveAction::ReAdd { project, path }) && r is ReAdded
}

/// It was tried to load something into some project again.
pub open spec fn any_re_added() -> RemoveExchange {
    |q: RemoveAction<Seq<char>>, r: RemoveReply<Seq<char>>| q is ReAdd && r is ReAdded
}

/// Whether every project of the plan has been dealt with as `what` says,
/// except for those in `todo`.
pub open spec fn each_project(
    root: PlanView,
    replies: Seq<RemoveReply<Seq<char>>>,
    what: spec_fn(AffectedProject) -> RemoveExchange,
    todo: Seq<AffectedProject>,
) -> bool {
    forall|affected: AffectedProject| #[trigger]
        root.affected_projects.contains(affected) ==> todo.contains(affected) || happened(
            Removal::starting(root),
            replies,
            what(affected),
        )
}

/// The test, for each project, that it was detached.
pub open spec fn being_detached() -> spec_fn(AffectedProject) -> RemoveExchange {
    |affected: AffectedProject| detached(affected)
}

/// The test, for each project, that its release was waited for.
pub open spec fn being_released() -> spec_fn(AffectedProject) -> RemoveExchange {
    |affected: AffectedProject| released(affected)
}

/// The test, for each project, that it was tried to give `path` back to it.
pub open spec fn being_re_added(path: Seq<char>) -> spec_fn(AffectedProject) -> RemoveExchange {
    |affected: AffectedProject| re_added(affected.project, path)
}

proof fn lemma_each_project_last(
    root: PlanView,
    replies: Seq<RemoveReply<Seq<char>>>,
    what: spec_fn(AffectedProject) -> RemoveExchange,
    todo: Seq<AffectedProject>,
    left: Seq<AffectedProject>,
)
    requires
        replies.len() > 0,
        each_project(root, replies.drop_last(), what, todo),
        left == todo || (todo.len() > 0 && left == todo.drop_first() && what(todo[0])(
            after(Removal::starting(root), replies.drop_last()).pending(),
            replies.last(),
        )),
    ensures
        each_project(root, replies, what, left),
{
    let start = Removal::starting(root);
    assert forall|affected: AffectedProject| #[trigger]
        root.affected_projects.contains(affected) implies left.contains(affected) || happened(
        start,
        replies,
        what(affected),
    ) by {
        lemma_happened_last(start, replies, what(affected));
        if todo.contains(affected) && left != todo && affected != todo[0] {
            let k = todo.index_of(affected);
            assert(left[k - 1] == affected);
        }
    }
}

spec fn consistent(root: PlanView, replies: Seq<RemoveReply<Seq<char>>>) -> bool {
    let start = Removal::starting(root);
    let now = after(start, replies);
    let path = root.root_path.text;
    &&& now.root == root
    &&& !(now.phase is ReAdding) && !(now.phase matches RemovePhase::Finished(Err(_)))
        ==> !happened(start, replies, any_re_added())
    &&& match now.phase {
        RemovePhase::Detaching { affected, rest } => each_project(
            root,
            replies,
            being_detached(),
            seq![affected] + rest,
        ),
        RemovePhase::AwaitingRelease { affected, rest } => {
            &&& each_project(root, replies, being_detached(), Seq::empty())
            &&& each_project(root, replies, being_released(), seq![affected] + rest)
        },
        RemovePhase::OpeningMain | RemovePhase::Removing => {
            &&& each_project(root, replies, being_detached(), Seq::empty())
            &&& each_project(root, replies, being_released(), Seq::empty())
        },
        RemovePhase::ReAdding { affected, rest, .. } => each_project(
            root,
            replies,
            being_re_added(path),
            seq![affected] + rest,
        ),
        RemovePhase::Finished(Ok(_)) => happened(start, replies, removed(path)),
        RemovePhase::Finished(Err(_)) => each_project(
            root,
            replies,
            being_re_added(path),
            Seq::empty(),
        ),
    }
}

proof fn lemma_at_releasing(
    root: PlanView,
    replies: Seq<RemoveReply<Seq<char>>>,
    todo: Seq<AffectedProject>,
)
    requires
        after(Removal::starting(root), replies) == Removal::starting(root).at(releasing(todo)),
        !happened(Removal::starting(root), replies, any_re_added()),
        each_project(root, replies, being_detached(), Seq::empty()),
        each_project(root, replies, being_released(), todo),
    ensures
        consistent(root, replies),
{
    if todo.len() == 0 {
        assert(todo =~= Seq::empty());
    } else {
        assert(todo =~= seq![todo[0]] + todo.drop_first());
    }
}

proof fn lemma_at_detaching(
    root: PlanView,
    replies: Seq<RemoveReply<Seq<char>>>,
    todo: Seq<AffectedProject>,
)
    requires
        after(Removal::starting(root), replies) == Removal::starting(root).at(
            detaching(todo, root.affected_projects),
        ),
        !happened(Removal::starting(root), replies, any_re_added()),
        each_project(root, replies, being_detached(), todo),
    ensures
        consistent(root, replies),
{
    if todo.len() == 0 {
        assert(todo =~= Seq::empty());
        lemma_at_releasing(root, replies, root.affected_projects);
    } else {
        assert(todo =~= seq![todo[0]] + todo.drop_first());
    }
}

proof fn lemma_at_re_adding(
    root: PlanView,
    replies: Seq<RemoveReply<Seq<char>>>,
    error: ArchiveError<Seq<char>>,
    todo: Seq<AffectedProject>,
)
    requires
        after(Removal::starting(root), replies) == Removal::starting(root).at(
            re_adding(error, todo),
        ),
        each_project(root, replies, being_re_added(root.root_path.text), todo),
    ensures
        consistent(root, replies),
{
    if todo.len() == 0 {
        assert(todo =~= Seq::empty());
    } else {
        assert(todo =~= seq![todo[0]] + todo.drop_first());
    }
}

proof fn lemma_consistent(root: PlanView, replies: Seq<RemoveReply<Seq<char>>>)
    ensures
        consistent(root, replies),
    decreases replies.len(),
{
    let start = Removal::starting(root);
    let path = root.root_path.text;
    let all = root.affected_projects;
    if replies.len() == 0 {
        lemma_nothing_happened(start, replies, any_re_added());
        lemma_at_detaching(root, replies, all);
    } else {
        let before = after(start, replies.drop_last());
        let reply = replies.last();
        lemma_consistent(root, replies.drop_last());
        lemma_happened_last(start, replies, any_re_added());
        lemma_happened_last(start, replies, removed(path));
        match before.phase {
            RemovePhase::Detaching { affected, rest } => {
                let todo = seq![affected] + rest;
                assert(todo.drop_first() =~= rest);
                if reply is Detached {
                    lemma_each_project_last(root, replies, being_detached(), todo, rest);
                    lemma_at_detaching(root, replies, rest);
                } else {
                    lemma_each_project_last(root, replies, being_detached(), todo, todo);
                }
            },
            RemovePhase::AwaitingRelease { affected, rest } => {
                let todo = seq![affected] + rest;
                assert(todo.drop_first() =~= rest);
                lemma_each_project_last(root, replies, being_detached(), Seq::empty(), Seq::empty());
                if reply is Released {
                    lemma_each_project_last(root, replies, being_released(), todo, rest);
                    lemma_at_releasing(root, replies, rest);
                } else {
                    lemma_each_project_last(root, replies, being_released(), todo, todo);
                }
            },
            RemovePhase::OpeningMain => {
                lemma_each_project_last(root, replies, being_detached(), Seq::empty(), Seq::empty());
                lemma_each_project_last(root, replies, being_released(), Seq::empty(), Seq::empty());
                if let RemoveReply::Opened(Err(error)) = reply {
                    lemma_at_re_adding(root, replies, error, all);
                }
            },
            RemovePhase::Removing => {
                lemma_each_project_last(root, replies, being_detached(), Seq::empty(), Seq::empty());
                lemma_each_project_last(root, replies, being_released(), Seq::empty(), Seq::empty());
                if let RemoveReply::Removed(outcome) = reply {
                    match outcome {
                        Outcome::Done(_) => {},
                        Outcome::Failed(cause) => {
                            lemma_at_re_adding(
                                root,
                                replies,
                                ArchiveError::MetadataCleanup { cause },
                                all,
                            );
                        },
                        Outcome::Canceled => {
                            lemma_at_re_adding(
                                root,
                                replies,
                                ArchiveError::MetadataCleanupCanceled,
                                all,
                            );
                        },
                    }
                }
            },
            RemovePhase::ReAdding { error, affected, rest } => {
                let todo = seq![affected] + rest;
                assert(todo.drop_first() =~= rest);
                if reply is ReAdded {
                    lemma_each_project_last(root, replies, being_re_added(path), todo, rest);
                    lemma_at_re_adding(root, replies, error, rest);
                } else {
                    lemma_each_project_last(root, replies, being_re_added(path), todo, todo);
                }
            },
            RemovePhase::Finished(Ok(_)) => {},
            RemovePhase::Finished(Err(_)) => {
                lemma_each_project_last(
                    root,
                    replies,
                    being_re_added(path),
                    Seq::empty(),
                    Seq::empty(),
                );
            },
        }
    }
}

/// The worktree is not touched on disk before every affected project has
/// removed it and its release has been waited for.
pub proof fn projects_let_go_before_the_removal(
    root: PlanView,
    replies: Seq<RemoveReply<Seq<char>>>,
)
    ensures
        after(Removal::starting(root), replies).pending() is RemoveWorktree ==> each_project(
            root,
            replies,
            being_detached(),
            Seq::empty(),
        ) && each_project(root, replies, being_released(), Seq::empty()),
{
    lemma_consistent(root, replies);
}

/// A removal that fails has tried to give the worktree back to every affected
/// project.
pub proof fn failed_removals_give_the_worktree_back(
    root: PlanView,
    replies: Seq<RemoveReply<Seq<char>>>,
)
    ensures
        after(Removal::starting(root), replies).outcome() matches Some(Err(_)) ==> each_project(
            root,
            replies,
            being_re_added(root.root_path.text),
            Seq::empty(),
        ),
{
    lemma_consistent(root, replies);
}

/// A removal that succeeds has removed the worktree, and has given it back to
/// no project.
pub proof fn successful_removals_remove_the_worktree(
    root: PlanView,
    replies: Seq<RemoveReply<Seq<char>>>,
)
    ensures
        ({
            let start = Removal::starting(root);
            after(start, replies).outcome() matches Some(Ok(_)) ==> happened(
                start,
                replies,
                removed(root.root_path.text),
            ) && !happened(start, replies, any_re_added())
        }),
{
    lemma_consistent(root, replies);
}

} // verus!
