//! Getting hold of a repository, one step at a time.
//!
//! Repositories belong to projects. Where no open project has the wanted one,
//! a temporary project is made for it, on the machine that it is on.
use vstd::prelude::*;

use crate::error::ArchiveError;
#[allow(unused_imports)]
use crate::model::failure_text;
use crate::model::{ConnectionId, ProjectId, RepositoryId};
use crate::path::DiskPath;
#[allow(unused_imports)]
use crate::path::PathView;
use crate::trace::Process;
#[allow(unused_imports)]
use crate::trace::{after, happened, lemma_happened_last, lemma_nothing_happened};
use crate::workspace::{find_live_repository, find_repository, OpenWorkspace, RepositoryEntry};
#[allow(unused_imports)]
use crate::workspace::{
    first_live_repository, first_repository, is_wanted, lemma_live_repository_is_wanted,
};

verus! {

/// The project that keeps an opened repository alive.
#[derive(Clone, Copy, Debug, PartialEq, Eq, Structural)]
pub enum Keeper {
    /// An open project, which had the repository already.
    Live(ProjectId),
    /// The temporary project, which the caller drops when it is done.
    Temporary,
}

/// A repository that can be worked with.
#[derive(Clone, Copy, Debug, PartialEq, Eq, Structural)]
pub struct OpenedRepository {
    pub repository: RepositoryId,
    pub keeper: Keeper,
}

/// What is needed next to open a repository.
#[derive(Debug, PartialEq, Eq)]
pub enum OpenAction<S> {
    /// Find an open workspace to take the application state from.
    FindAppState,
    /// Check whether there is an active connection to the machine.
    CheckConnection(ConnectionId),
    /// Connect to the machine, over the transport that is already there.
    Connect(ConnectionId),
    /// Make a temporary project over the new connection.
    CreateRemoteProject,
    /// Make a temporary project on this machine.
    CreateLocalProject,
    /// Load the directory `path` into the temporary project.
    AddWorktree { path: S },
    /// Wait until the temporary project has been scanned.
    AwaitScan,
    /// List the repositories of the temporary project.
    ListRepositories,
    /// Wait until the repository is ready for work.
    AwaitBarrier(RepositoryId),
    /// Nothing: the attempt has ended.
    Finish,
}

impl View for OpenAction<String> {
    type V = OpenAction<Seq<char>>;

    open spec fn view(&self) -> OpenAction<Seq<char>> {
        match self {
            OpenAction::FindAppState => OpenAction::FindAppState,
            OpenAction::CheckConnection(connection) => OpenAction::CheckConnection(*connection),
            OpenAction::Connect(connection) => OpenAction::Connect(*connection),
            OpenAction::CreateRemoteProject => OpenAction::CreateRemoteProject,
            OpenAction::CreateLocalProject => OpenAction::CreateLocalProject,
            OpenAction::AddWorktree { path } => OpenAction::AddWorktree { path: path@ },
            OpenAction::AwaitScan => OpenAction::AwaitScan,
            OpenAction::ListRepositories => OpenAction::ListRepositories,
            OpenAction::AwaitBarrier(repository) => OpenAction::AwaitBarrier(*repository),
            OpenAction::Finish => OpenAction::Finish,
        }
    }
}

/// What the environment answers to an [`OpenAction`]. `R` is a list of
/// repositories.
#[derive(Debug)]
pub enum OpenReply<S, R> {
    /// To `FindAppState`: whether there is one.
    AppState(bool),
    /// To `CheckConnection`: whether it is active.
    Active(bool),
    /// To `Connect`: whether it was made, or else canceled.
    Connected(Result<bool, S>),
    /// To `CreateRemoteProject` and `CreateLocalProject`.
    ProjectCreated,
    /// To `AddWorktree`.
    WorktreeAdded(Result<(), S>),
    /// To `AwaitScan`.
    Scanned,
    /// To `ListRepositories`.
    Repositories(R),
    /// To `AwaitBarrier`: whether the repository got ready, or else went away.
    Ready(bool),
}

impl View for OpenReply<String, Vec<RepositoryEntry>> {
    type V = OpenReply<Seq<char>, Seq<RepositoryEntry>>;

    open spec fn view(&self) -> OpenReply<Seq<char>, Seq<RepositoryEntry>> {
        match self {
            OpenReply::AppState(found) => OpenReply::AppState(*found),
            OpenReply::Active(active) => OpenReply::Active(*active),
            OpenReply::Connected(result) => OpenReply::Connected(failure_text(*result)),
            OpenReply::ProjectCreated => OpenReply::ProjectCreated,
            OpenReply::WorktreeAdded(result) => OpenReply::WorktreeAdded(failure_text(*result)),
            OpenReply::Scanned => OpenReply::Scanned,
            OpenReply::Repositories(repositories) => OpenReply::Repositories(repositories@),
            OpenReply::Ready(ready) => OpenReply::Ready(*ready),
        }
    }
}

/// How far the attempt to open a repository has come.
#[derive(Debug, PartialEq, Eq)]
pub enum OpenPhase<S> {
    FindingAppState,
    CheckingConnection(ConnectionId),
    Connecting(ConnectionId),
    CreatingRemoteProject,
    CreatingLocalProject,
    AddingWorktree,
    Scanning,
    Listing,
    AwaitingBarrier(RepositoryId),
    Finished(Result<OpenedRepository, ArchiveError<S>>),
}

impl View for OpenPhase<String> {
    type V = OpenPhase<Seq<char>>;

    open spec fn view(&self) -> OpenPhase<Seq<char>> {
        match self {
            OpenPhase::FindingAppState => OpenPhase::FindingAppState,
            OpenPhase::CheckingConnection(connection) => OpenPhase::CheckingConnection(*connection),
            OpenPhase::Connecting(connection) => OpenPhase::Connecting(*connection),
            OpenPhase::CreatingRemoteProject => OpenPhase::CreatingRemoteProject,
            OpenPhase::CreatingLocalProject => OpenPhase::CreatingLocalProject,
            OpenPhase::AddingWorktree => OpenPhase::AddingWorktree,
            OpenPhase::Scanning => OpenPhase::Scanning,
            OpenPhase::Listing => OpenPhase::Listing,
            OpenPhase::AwaitingBarrier(repository) => OpenPhase::AwaitingBarrier(*repository),
            OpenPhase::Finished(Ok(opened)) => OpenPhase::Finished(Ok(*opened)),
            OpenPhase::Finished(Err(error)) => OpenPhase::Finished(Err(error@)),
        }
    }
}

/// An attempt to open a repository. `P` is `DiskPath` in running code and
/// `PathView` in contracts.
#[derive(Debug)]
pub struct OpenRepository<S, P> {
    /// Where the repository is checked out.
    pub path: P,
    /// The machine that it is on, if that is a remote one.
    pub connection: Option<ConnectionId>,
    pub phase: OpenPhase<S>,
}

impl View for OpenRepository<String, DiskPath> {
    type V = OpenRepository<Seq<char>, PathView>;

    open spec fn view(&self) -> OpenRepository<Seq<char>, PathView> {
        OpenRepository { path: self.path@, connection: self.connection, phase: self.phase@ }
    }
}

impl OpenRepository<Seq<char>, PathView> {
    /// An attempt before its first request. Where an open project on the
    /// machine has the repository, the attempt has already succeeded.
    pub open spec fn starting(
        path: PathView,
        connection: Option<ConnectionId>,
        workspaces: Seq<OpenWorkspace>,
    ) -> Self {
        OpenRepository {
            path,
            connection,
            phase: match first_live_repository(workspaces, path, false) {
                Some((w, i)) => OpenPhase::Finished(
                    Ok(
                        OpenedRepository {
                            repository: workspaces[w].repositories@[i].id,
                            keeper: Keeper::Live(workspaces[w].project),
                        },
                    ),
                ),
                None => OpenPhase::FindingAppState,
            },
        }
    }

    /// The same attempt in another phase.
    pub open spec fn at(self, phase: OpenPhase<Seq<char>>) -> Self {
        OpenRepository { phase, ..self }
    }

    /// The attempt, failed.
    pub open spec fn failed(self, error: ArchiveError<Seq<char>>) -> Self {
        self.at(OpenPhase::Finished(Err(error)))
    }

    /// The request that the attempt waits for.
    pub open spec fn pending(self) -> OpenAction<Seq<char>> {
        match self.phase {
            OpenPhase::FindingAppState => OpenAction::FindAppState,
            OpenPhase::CheckingConnection(connection) => OpenAction::CheckConnection(connection),
            OpenPhase::Connecting(connection) => OpenAction::Connect(connection),
            OpenPhase::CreatingRemoteProject => OpenAction::CreateRemoteProject,
            OpenPhase::CreatingLocalProject => OpenAction::CreateLocalProject,
            OpenPhase::AddingWorktree => OpenAction::AddWorktree { path: self.path.text },
            OpenPhase::Scanning => OpenAction::AwaitScan,
            OpenPhase::Listing => OpenAction::ListRepositories,
            OpenPhase::AwaitingBarrier(repository) => OpenAction::AwaitBarrier(repository),
            OpenPhase::Finished(_) => OpenAction::Finish,
        }
    }

    /// The attempt after `reply` to the pending request. A reply to another
    /// request changes nothing.
    pub open spec fn next(self, reply: OpenReply<Seq<char>, Seq<RepositoryEntry>>) -> Self {
        match (self.phase, reply) {
            (OpenPhase::FindingAppState, OpenReply::AppState(found)) => if !found {
                self.failed(ArchiveError::NoAppStateForTemporaryProject)
            } else {
                match self.connection {
                    Some(connection) => self.at(OpenPhase::CheckingConnection(connection)),
                    None => self.at(OpenPhase::CreatingLocalProject),
                }
            },
            (OpenPhase::CheckingConnection(connection), OpenReply::Active(active)) => if active {
                self.at(OpenPhase::Connecting(connection))
            } else {
                self.failed(ArchiveError::RemoteDisconnected)
            },
            (OpenPhase::Connecting(_), OpenReply::Connected(result)) => match result {
                Ok(true) => self.at(OpenPhase::CreatingRemoteProject),
                Ok(false) => self.failed(ArchiveError::RemoteConnectionCanceled),
                Err(cause) => self.failed(ArchiveError::Host(cause)),
            },
            (OpenPhase::CreatingRemoteProject, OpenReply::ProjectCreated) =>
                self.at(OpenPhase::AddingWorktree),
            (OpenPhase::CreatingLocalProject, OpenReply::ProjectCreated) =>
                self.at(OpenPhase::AddingWorktree),
            (OpenPhase::AddingWorktree, OpenReply::WorktreeAdded(result)) => match result {
                Ok(_) => self.at(OpenPhase::Scanning),
                Err(cause) => self.failed(ArchiveError::Host(cause)),
            },
            (OpenPhase::Scanning, OpenReply::Scanned) => self.at(OpenPhase::Listing),
            (OpenPhase::Listing, OpenReply::Repositories(repositories)) =>
                match first_repository(repositories, self.path, false) {
                    Some(i) => self.at(OpenPhase::AwaitingBarrier(repositories[i].id)),
                    None => self.failed(ArchiveError::TemporaryRepositoryUnresolved),
                },
            (OpenPhase::AwaitingBarrier(repository), OpenReply::Ready(ready)) => if ready {
                self.at(
                    OpenPhase::Finished(
                        Ok(OpenedRepository { repository, keeper: Keeper::Temporary }),
                    ),
                )
            } else {
                self.failed(ArchiveError::TemporaryRepositoryBarrierCanceled)
            },
            _ => self,
        }
    }

    /// How the attempt ended, once it has.
    pub open spec fn outcome(self) -> Option<Result<OpenedRepository, ArchiveError<Seq<char>>>> {
        match self.phase {
            OpenPhase::Finished(result) => Some(result),
            _ => None,
        }
    }
}

impl OpenRepository<String, DiskPath> {
    /// The request that the attempt waits for.
    pub fn pending(&self) -> (r: OpenAction<String>)
        ensures
            r@ == self@.pending(),
    {
        match &self.phase {
            OpenPhase::FindingAppState => OpenAction::FindAppState,
            OpenPhase::CheckingConnection(connection) => OpenAction::CheckConnection(*connection),
            OpenPhase::Connecting(connection) => OpenAction::Connect(*connection),
            OpenPhase::CreatingRemoteProject => OpenAction::CreateRemoteProject,
            OpenPhase::CreatingLocalProject => OpenAction::CreateLocalProject,
            OpenPhase::AddingWorktree => OpenAction::AddWorktree { path: self.path.text() },
            OpenPhase::Scanning => OpenAction::AwaitScan,
            OpenPhase::Listing => OpenAction::ListRepositories,
            OpenPhase::AwaitingBarrier(repository) => OpenAction::AwaitBarrier(*repository),
            OpenPhase::Finished(_) => OpenAction::Finish,
        }
    }

    /// Takes the answer to the pending request and moves on. An answer to
    /// another request is ignored.
    pub fn step(self, reply: OpenReply<String, Vec<RepositoryEntry>>) -> (r: Self)
        ensures
            r@ == self@.next(reply@),
    {
        let OpenRepository { path, connection, phase } = self;
        let phase = match (phase, reply) {
            (OpenPhase::FindingAppState, OpenReply::AppState(found)) => {
                if !found {
                    OpenPhase::Finished(Err(ArchiveError::NoAppStateForTemporaryProject))
                } else {
                    match connection {
                        Some(remote) => OpenPhase::CheckingConnection(remote),
                        None => OpenPhase::CreatingLocalProject,
                    }
                }
            },
            (OpenPhase::CheckingConnection(remote), OpenReply::Active(active)) => {
                if active {
                    OpenPhase::Connecting(remote)
                } else {
                    OpenPhase::Finished(Err(ArchiveError::RemoteDisconnected))
                }
            },
            (OpenPhase::Connecting(_), OpenReply::Connected(result)) => match result {
                Ok(true) => OpenPhase::CreatingRemoteProject,
                Ok(false) => OpenPhase::Finished(Err(ArchiveError::RemoteConnectionCanceled)),
                Err(cause) => OpenPhase::Finished(Err(ArchiveError::Host(cause))),
            },
            (OpenPhase::CreatingRemoteProject, OpenReply::ProjectCreated) =>
                OpenPhase::AddingWorktree,
            (OpenPhase::CreatingLocalProject, OpenReply::ProjectCreated) =>
                OpenPhase::AddingWorktree,
            (OpenPhase::AddingWorktree, OpenReply::WorktreeAdded(result)) => match result {
                Ok(_) => OpenPhase::Scanning,
                Err(cause) => OpenPhase::Finished(Err(ArchiveError::Host(cause))),
            },
            (OpenPhase::Scanning, OpenReply::Scanned) => OpenPhase::Listing,
            (OpenPhase::Listing, OpenReply::Repositories(repositories)) => {
                match find_repository(&repositories, &path, false) {
                    Some(i) => OpenPhase::AwaitingBarrier(repositories[i].id),
                    None => OpenPhase::Finished(Err(ArchiveError::TemporaryRepositoryUnresolved)),
                }
            },
            (OpenPhase::AwaitingBarrier(repository), OpenReply::Ready(ready)) => {
                if ready {
                    OpenPhase::Finished(
                        Ok(OpenedRepository { repository, keeper: Keeper::Temporary }),
                    )
                } else {
                    OpenPhase::Finished(Err(ArchiveError::TemporaryRepositoryBarrierCanceled))
                }
            },
            (phase, _) => phase,
        };
        OpenRepository { path, connection, phase }
    }

    /// The repository, or why it could not be opened. `None` while a request
    /// is pending.
    pub fn finish(self) -> (r: Option<Result<OpenedRepository, ArchiveError<String>>>)
        ensures
            match r {
                Some(Ok(opened)) => self@.outcome() == Some(
                    Ok::<_, ArchiveError<Seq<char>>>(opened),
                ),
                Some(Err(error)) => self@.outcome() == Some(Err::<OpenedRepository, _>(error@)),
                None => self@.outcome() is None,
            },
    {
        match self.phase {
            OpenPhase::Finished(result) => Some(result),
            _ => None,
        }
    }
}

/// Finds a live repository for the given path, or starts to make a temporary
/// project to obtain one.
///
/// `workspaces` are the open workspaces; only those on the machine that
/// `remote_connection` stands for are considered, so that a local path and a
/// remote one are not confused.
pub fn find_or_create_repository(
    repo_path: DiskPath,
    remote_connection: Option<ConnectionId>,
    workspaces: &Vec<OpenWorkspace>,
) -> (r: OpenRepository<String, DiskPath>)
    ensures
        r@ == OpenRepository::starting(repo_path@, remote_connection, workspaces@),
{
    let phase = match find_live_repository(workspaces, &repo_path, false) {
        Some((w, i)) => OpenPhase::Finished(
            Ok(
                OpenedRepository {
                    repository: workspaces[w].repositories[i].id,
                    keeper: Keeper::Live(workspaces[w].project),
                },
            ),
        ),
        None => OpenPhase::FindingAppState,
    };
    OpenRepository { path: repo_path, connection: remote_connection, phase }
}

impl Process for OpenRepository<Seq<char>, PathView> {
    type Request = OpenAction<Seq<char>>;

    type Reply = OpenReply<Seq<char>, Seq<RepositoryEntry>>;

    open spec fn awaits(self) -> OpenAction<Seq<char>> {
        self.pending()
    }

    open spec fn advance(self, reply: OpenReply<Seq<char>, Seq<RepositoryEntry>>) -> Self {
        self.next(reply)
    }
}

/// A test of a request and the answer to it.
pub type OpenExchange = spec_fn(
    OpenAction<Seq<char>>,
    OpenReply<Seq<char>, Seq<RepositoryEntry>>,
) -> bool;

/// The machine was found to be connected.
pub open spec fn found_connected(connection: ConnectionId) -> OpenExchange {
    |q: OpenAction<Seq<char>>, r: OpenReply<Seq<char>, Seq<RepositoryEntry>>|
        q == OpenAction::<Seq<char>>::CheckConnection(connection) && r matches OpenReply::Active(
            true,
        )
}

/// The temporary project was found to hold `repository`, as the first one
/// that is checked out at `path`.
pub open spec fn found_listed(repository: RepositoryId, path: PathView) -> OpenExchange {
    |q: OpenAction<Seq<char>>, r: OpenReply<Seq<char>, Seq<RepositoryEntry>>|
        {
            &&& q is ListRepositories
            &&& r matches OpenReply::Repositories(listed)
            &&& first_repository(listed, path, false) matches Some(i)
            &&& listed[i].id == repository
        }
}

/// The repository got ready for work.
pub open spec fn got_ready(repository: RepositoryId) -> OpenExchange {
    |q: OpenAction<Seq<char>>, r: OpenReply<Seq<char>, Seq<RepositoryEntry>>|
        q == OpenAction::<Seq<char>>::AwaitBarrier(repository) && r matches OpenReply::Ready(true)
}

/// Whether no open project on the machine has a repository at `path`.
pub open spec fn has_no_live_repository(
    workspaces: Seq<OpenWorkspace>,
    path: PathView,
) -> bool {
    first_live_repository(workspaces, path, false) is None
}

spec fn consistent(
    workspaces: Seq<OpenWorkspace>,
    start: OpenRepository<Seq<char>, PathView>,
    replies: Seq<OpenReply<Seq<char>, Seq<RepositoryEntry>>>,
) -> bool {
    let now = after(start, replies);
    &&& now.path == start.path
    &&& now.connection == start.connection
    &&& !(now.phase is Finished) ==> has_no_live_repository(workspaces, start.path)
    &&& now.phase matches OpenPhase::CheckingConnection(connection) ==> start.connection == Some(
        connection,
    )
    &&& now.phase matches OpenPhase::Connecting(connection) ==> start.connection == Some(connection)
        && happened(start, replies, found_connected(connection))
    &&& now.phase is CreatingRemoteProject ==> start.connection is Some && happened(
        start,
        replies,
        found_connected(start.connection->0),
    )
    &&& now.phase is CreatingLocalProject ==> start.connection is None
    &&& now.phase matches OpenPhase::AwaitingBarrier(repository) ==> happened(
        start,
        replies,
        found_listed(repository, start.path),
    )
    &&& now.phase matches OpenPhase::Finished(Ok(opened)) ==> match opened.keeper {
        Keeper::Live(_) => start.outcome() == Some(Ok::<_, ArchiveError<Seq<char>>>(opened)),
        Keeper::Temporary => has_no_live_repository(workspaces, start.path) && happened(
            start,
            replies,
            found_listed(opened.repository, start.path),
        ) && happened(start, replies, got_ready(opened.repository)),
    }
}

proof fn lemma_consistent(
    path: PathView,
    connection: Option<ConnectionId>,
    workspaces: Seq<OpenWorkspace>,
    replies: Seq<OpenReply<Seq<char>, Seq<RepositoryEntry>>>,
)
    ensures
        consistent(
            workspaces,
            OpenRepository::starting(path, connection, workspaces),
            replies,
        ),
    decreases replies.len(),
{
    let start = OpenRepository::starting(path, connection, workspaces);
    if replies.len() > 0 {
        lemma_consistent(path, connection, workspaces, replies.drop_last());
        match connection {
            Some(remote) => {
                lemma_happened_last(start, replies, found_connected(remote));
            },
            None => {},
        }
        match after(start, replies).phase {
            OpenPhase::AwaitingBarrier(repository) => {
                lemma_happened_last(start, replies, found_listed(repository, path));
            },
            OpenPhase::Finished(Ok(opened)) => {
                lemma_happened_last(start, replies, found_listed(opened.repository, path));
                lemma_happened_last(start, replies, got_ready(opened.repository));
            },
            _ => {},
        }
    }
}

/// A temporary project is made only where no open project has the repository,
/// and on the machine that was asked for: a remote one only over a connection
/// that was found to be active.
pub proof fn temporary_projects_are_made_where_the_repository_is(
    path: PathView,
    connection: Option<ConnectionId>,
    workspaces: Seq<OpenWorkspace>,
    replies: Seq<OpenReply<Seq<char>, Seq<RepositoryEntry>>>,
)
    ensures
        ({
            let start = OpenRepository::starting(path, connection, workspaces);
            let asked = after(start, replies).pending();
            &&& !(asked is Finish) ==> has_no_live_repository(workspaces, path)
            &&& asked is CreateLocalProject ==> connection is None
            &&& asked is CreateRemoteProject ==> connection is Some && happened(
                start,
                replies,
                found_connected(connection->0),
            )
            &&& asked matches OpenAction::Connect(remote) ==> connection == Some(remote)
                && happened(start, replies, found_connected(remote))
        }),
{
    lemma_consistent(path, connection, workspaces, replies);
}

/// A repository that comes from a temporary project is the first one there
/// that is checked out at the wanted path, and it got ready.
pub proof fn temporary_repositories_are_the_wanted_ones(
    path: PathView,
    connection: Option<ConnectionId>,
    workspaces: Seq<OpenWorkspace>,
    replies: Seq<OpenReply<Seq<char>, Seq<RepositoryEntry>>>,
)
    ensures
        ({
            let start = OpenRepository::starting(path, connection, workspaces);
            after(start, replies).outcome() matches Some(Ok(opened)) ==> opened.keeper is Temporary
                ==> {
                &&& happened(start, replies, found_listed(opened.repository, path))
                &&& happened(start, replies, got_ready(opened.repository))
            }
        }),
{
    lemma_consistent(path, connection, workspaces, replies);
}

/// Whether an open project on the machine that is being asked about is
/// `project`, and has `repository` checked out at `path`.
pub open spec fn has_open(
    workspaces: Seq<OpenWorkspace>,
    project: ProjectId,
    repository: RepositoryId,
    path: PathView,
) -> bool {
    exists|w: int, i: int|
        {
            &&& 0 <= w < workspaces.len()
            &&& 0 <= i < workspaces[w].repositories@.len()
            &&& workspaces[w].same_connection
            &&& workspaces[w].project == project
            &&& (#[trigger] workspaces[w].repositories@[i]).id == repository
            &&& workspaces[w].repositories@[i].work_directory@.same_as(path)
        }
}

/// A repository that comes from an open project is the wanted one: the project
/// is on the machine that was asked for, and has the repository checked out at
/// the wanted path.
pub proof fn live_repositories_are_the_wanted_ones(
    path: PathView,
    connection: Option<ConnectionId>,
    workspaces: Seq<OpenWorkspace>,
    replies: Seq<OpenReply<Seq<char>, Seq<RepositoryEntry>>>,
)
    ensures
        after(OpenRepository::starting(path, connection, workspaces), replies).outcome() matches Some(
            Ok(opened),
        ) ==> opened.keeper matches Keeper::Live(project) ==> has_open(
            workspaces,
            project,
            opened.repository,
            path,
        ),
{
    lemma_consistent(path, connection, workspaces, replies);
    lemma_live_repository_is_wanted(workspaces, path, false);
    if let Some((w, i)) = first_live_repository(workspaces, path, false) {
        assert(is_wanted(workspaces[w].repositories@[i], path, false));
    }
}

} // verus!
