//! What an attempt to open a repository asks for, answer by answer.
use vstd::prelude::*;

use crate::error::ArchiveError;
use crate::model::ConnectionId;
use crate::path::PathView;
use crate::repository::OpenRepository;
#[allow(unused_imports)]
use crate::repository::{Keeper, OpenAction, OpenPhase, OpenReply, OpenedRepository};
use crate::workspace::{OpenWorkspace, RepositoryEntry};
#[allow(unused_imports)]
use crate::workspace_laws::{
    no_live_repository_is_found_at_another_path, no_repository_is_found_at_another_path,
    the_first_live_repository_at_the_path_is_found, the_first_repository_at_the_path_is_found,
};

verus! {

/// An attempt to open a repository, in contracts.
pub type Attempt = OpenRepository<Seq<char>, PathView>;

/// Whether the attempt has ended with `error`.
pub open spec fn failed_for(attempt: Attempt, error: ArchiveError<Seq<char>>) -> bool {
    attempt.pending() is Finish && attempt.outcome() == Some(
        Err::<OpenedRepository, ArchiveError<Seq<char>>>(error),
    )
}

/// Where a project on the machine has a repository checked out at the path,
/// linked or not, the first such one is the outcome at once, kept by that
/// project, and nothing is asked for.
pub proof fn live_repositories_are_taken_at_once(
    path: PathView,
    connection: Option<ConnectionId>,
    workspaces: Seq<OpenWorkspace>,
    w: int,
    i: int,
)
    requires
        0 <= w < workspaces.len(),
        workspaces[w].same_connection,
        0 <= i < workspaces[w].repositories@.len(),
        workspaces[w].repositories@[i].work_directory@.parts == path.parts,
        forall|v: int, j: int|
            0 <= v <= w && workspaces[v].same_connection && 0 <= j
                < workspaces[v].repositories@.len() && (v == w ==> j < i) ==> (
            #[trigger] workspaces[v].repositories@[j]).work_directory@.parts != path.parts,
    ensures
        ({
            let attempt = OpenRepository::starting(path, connection, workspaces);
            &&& attempt.pending() is Finish
            &&& attempt.outcome() == Some(
                Ok::<OpenedRepository, ArchiveError<Seq<char>>>(
                    OpenedRepository {
                        repository: workspaces[w].repositories@[i].id,
                        keeper: Keeper::Live(workspaces[w].project),
                    },
                ),
            )
        }),
{
    the_first_live_repository_at_the_path_is_found(workspaces, path, false, w, i);
}

/// Where no project on the machine has a repository at the path, a temporary
/// project is made: on this machine, or, where a connection is given, on the
/// one that it leads to, provided that it is active. The very path is then
/// loaded into it.
pub proof fn temporary_projects_are_made_step_by_step(
    path: PathView,
    connection: Option<ConnectionId>,
    workspaces: Seq<OpenWorkspace>,
    cause: Seq<char>,
)
    requires
        forall|v: int, j: int|
            0 <= v < workspaces.len() && workspaces[v].same_connection && 0 <= j
                < workspaces[v].repositories@.len() ==> (
            #[trigger] workspaces[v].repositories@[j]).work_directory@.parts != path.parts,
    ensures
        ({
            let attempt = OpenRepository::starting(path, connection, workspaces);
            let known = attempt.next(OpenReply::AppState(true));
            let active = known.next(OpenReply::Active(true));
            let connected = active.next(OpenReply::Connected(Ok(true)));
            &&& attempt.pending() == OpenAction::<Seq<char>>::FindAppState
            &&& failed_for(
                attempt.next(OpenReply::AppState(false)),
                ArchiveError::NoAppStateForTemporaryProject,
            )
            &&& match connection {
                None => {
                    &&& known.pending() == OpenAction::<Seq<char>>::CreateLocalProject
                    &&& known.next(OpenReply::ProjectCreated).pending() == (
                    OpenAction::AddWorktree { path: path.text })
                    &&& known.next(OpenReply::ProjectCreated).path == path
                },
                Some(remote) => {
                    &&& known.pending() == OpenAction::<Seq<char>>::CheckConnection(remote)
                    &&& failed_for(
                        known.next(OpenReply::Active(false)),
                        ArchiveError::RemoteDisconnected,
                    )
                    &&& active.pending() == OpenAction::<Seq<char>>::Connect(remote)
                    &&& failed_for(
                        active.next(OpenReply::Connected(Ok(false))),
                        ArchiveError::RemoteConnectionCanceled,
                    )
                    &&& failed_for(
                        active.next(OpenReply::Connected(Err(cause))),
                        ArchiveError::Host(cause),
                    )
                    &&& connected.pending() == OpenAction::<Seq<char>>::CreateRemoteProject
                    &&& connected.next(OpenReply::ProjectCreated).pending() == (
                    OpenAction::AddWorktree { path: path.text })
                    &&& connected.next(OpenReply::ProjectCreated).path == path
                },
            }
        }),
{
    no_live_repository_is_found_at_another_path(workspaces, path, false);
}

/// An attempt that loads a directory into the temporary project then waits for
/// its scan and lists its repositories. A failure to load it is passed on.
pub proof fn temporary_projects_are_scanned_before_they_are_listed(
    loading: Attempt,
    cause: Seq<char>,
)
    requires
        loading.pending() is AddWorktree,
    ensures
        ({
            let loaded = loading.next(OpenReply::WorktreeAdded(Ok(())));
            let scanned = loaded.next(OpenReply::Scanned);
            &&& failed_for(
                loading.next(OpenReply::WorktreeAdded(Err(cause))),
                ArchiveError::Host(cause),
            )
            &&& loaded.pending() == OpenAction::<Seq<char>>::AwaitScan
            &&& scanned.pending() == OpenAction::<Seq<char>>::ListRepositories
            &&& scanned.path == loading.path
        }),
{
}

/// The first listed repository that is checked out at the path, linked or not,
/// is the one that is waited for, and that the attempt ends with.
pub proof fn listed_repositories_are_found_by_their_path_alone(
    listing: Attempt,
    listed: Seq<RepositoryEntry>,
    i: int,
)
    requires
        listing.pending() is ListRepositories,
        0 <= i < listed.len(),
        listed[i].work_directory@.parts == listing.path.parts,
        forall|j: int|
            0 <= j < i ==> (#[trigger] listed[j]).work_directory@.parts != listing.path.parts,
    ensures
        ({
            let found = listing.next(OpenReply::Repositories(listed));
            let ready = found.next(OpenReply::Ready(true));
            &&& found.pending() == OpenAction::<Seq<char>>::AwaitBarrier(listed[i].id)
            &&& ready.pending() is Finish
            &&& ready.outcome() == Some(
                Ok::<OpenedRepository, ArchiveError<Seq<char>>>(
                    OpenedRepository { repository: listed[i].id, keeper: Keeper::Temporary },
                ),
            )
            &&& failed_for(
                found.next(OpenReply::Ready(false)),
                ArchiveError::TemporaryRepositoryBarrierCanceled,
            )
        }),
{
    the_first_repository_at_the_path_is_found(listed, listing.path, false, i);
}

/// The attempt fails as unresolved only where no listed repository is checked
/// out at the path.
pub proof fn listings_without_the_path_are_unresolved(
    listing: Attempt,
    listed: Seq<RepositoryEntry>,
)
    requires
        listing.pending() is ListRepositories,
        forall|j: int|
            0 <= j < listed.len() ==> (#[trigger] listed[j]).work_directory@.parts
                != listing.path.parts,
    ensures
        failed_for(
            listing.next(OpenReply::Repositories(listed)),
            ArchiveError::TemporaryRepositoryUnresolved,
        ),
{
    no_repository_is_found_at_another_path(listed, listing.path, false);
}

} // verus!
