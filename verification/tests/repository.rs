//! Getting hold of a repository.
use worktree_archive::error::ArchiveError;
use worktree_archive::model::{ConnectionId, ProjectId, RepositoryId};
use worktree_archive::path::DiskPath;
use worktree_archive::repository::{
    find_or_create_repository, Keeper, OpenAction, OpenReply, OpenRepository, OpenedRepository,
};
use worktree_archive::workspace::{OpenWorkspace, RepositoryEntry};

fn path(text: &str) -> DiskPath {
    DiskPath::new(text.to_string())
}

fn repository(id: u64, at: &str) -> RepositoryEntry {
    RepositoryEntry {
        id: RepositoryId(id),
        work_directory: path(at),
        linked: false,
        main_worktree: None,
        branch_name: None,
    }
}

fn workspace(project: u64, same_connection: bool, repositories: Vec<RepositoryEntry>) -> OpenWorkspace {
    OpenWorkspace { project: ProjectId(project), same_connection, worktrees: vec![], repositories }
}

type Attempt = OpenRepository<String, DiskPath>;

type Reply = OpenReply<String, Vec<RepositoryEntry>>;

fn run(mut attempt: Attempt, replies: Vec<Reply>) -> (Vec<OpenAction<String>>, Attempt) {
    let mut asked = Vec::new();
    for reply in replies {
        asked.push(attempt.pending());
        attempt = attempt.step(reply);
    }
    (asked, attempt)
}

fn remote() -> Attempt {
    find_or_create_repository(path("/project"), Some(ConnectionId(4)), &Vec::new())
}

fn local() -> Attempt {
    find_or_create_repository(path("/project"), None, &Vec::new())
}

fn message(attempt: Attempt) -> String {
    attempt.finish().unwrap().unwrap_err().message()
}

#[test]
fn live_repositories_are_taken_from_the_first_project_on_the_machine() {
    let workspaces = vec![
        workspace(1, false, vec![repository(10, "/project")]),
        workspace(2, true, vec![repository(20, "/other")]),
        workspace(3, true, vec![repository(30, "/other"), repository(31, "/project/")]),
        workspace(4, true, vec![repository(40, "/project")]),
    ];
    let attempt = find_or_create_repository(path("/project"), None, &workspaces);
    assert_eq!(attempt.pending(), OpenAction::Finish);
    assert_eq!(
        attempt.finish(),
        Some(Ok(OpenedRepository {
            repository: RepositoryId(31),
            keeper: Keeper::Live(ProjectId(3)),
        }))
    );
}

#[test]
fn local_repositories_get_a_temporary_local_project() {
    let (asked, attempt) = run(
        local(),
        vec![
            OpenReply::AppState(true),
            OpenReply::ProjectCreated,
            OpenReply::WorktreeAdded(Ok(())),
            OpenReply::Scanned,
            OpenReply::Repositories(vec![repository(1, "/project/sub"), repository(2, "/project")]),
            OpenReply::Ready(true),
        ],
    );
    assert_eq!(
        asked,
        vec![
            OpenAction::FindAppState,
            OpenAction::CreateLocalProject,
            OpenAction::AddWorktree { path: "/project".to_string() },
            OpenAction::AwaitScan,
            OpenAction::ListRepositories,
            OpenAction::AwaitBarrier(RepositoryId(2)),
        ]
    );
    assert_eq!(
        attempt.finish(),
        Some(Ok(OpenedRepository { repository: RepositoryId(2), keeper: Keeper::Temporary }))
    );
}

#[test]
fn remote_repositories_get_a_temporary_project_over_the_connection() {
    let (asked, attempt) = run(
        remote(),
        vec![
            OpenReply::AppState(true),
            OpenReply::Active(true),
            OpenReply::Connected(Ok(true)),
            OpenReply::ProjectCreated,
            OpenReply::WorktreeAdded(Ok(())),
            OpenReply::Scanned,
            OpenReply::Repositories(vec![repository(2, "/project")]),
            OpenReply::Ready(true),
        ],
    );
    assert_eq!(
        asked[..4],
        [
            OpenAction::FindAppState,
            OpenAction::CheckConnection(ConnectionId(4)),
            OpenAction::Connect(ConnectionId(4)),
            OpenAction::CreateRemoteProject,
        ]
    );
    assert_eq!(
        attempt.finish(),
        Some(Ok(OpenedRepository { repository: RepositoryId(2), keeper: Keeper::Temporary }))
    );
}

#[test]
fn attempts_without_an_app_state_fail() {
    let (_, attempt) = run(local(), vec![OpenReply::AppState(false)]);
    assert_eq!(message(attempt), "no app state available for temporary project");
}

#[test]
fn attempts_over_a_bad_connection_fail() {
    let (_, attempt) = run(remote(), vec![OpenReply::AppState(true), OpenReply::Active(false)]);
    assert_eq!(message(attempt), "cannot open repository on disconnected remote machine");

    let connecting = vec![
        OpenReply::AppState(true),
        OpenReply::Active(true),
        OpenReply::Connected(Ok(false)),
    ];
    let (_, attempt) = run(remote(), connecting);
    assert_eq!(message(attempt), "remote connection was canceled");

    let connecting = vec![
        OpenReply::AppState(true),
        OpenReply::Active(true),
        OpenReply::Connected(Err("ssh: no route".to_string())),
    ];
    let (_, attempt) = run(remote(), connecting);
    assert_eq!(message(attempt), "ssh: no route");
}

#[test]
fn attempts_with_a_bad_temporary_project_fail() {
    let start = || run(local(), vec![OpenReply::AppState(true), OpenReply::ProjectCreated]).1;
    let attempt = start().step(OpenReply::WorktreeAdded(Err("no such directory".to_string())));
    assert_eq!(
        attempt.finish(),
        Some(Err(ArchiveError::Host("no such directory".to_string())))
    );

    let scanned = || start().step(OpenReply::WorktreeAdded(Ok(()))).step(OpenReply::Scanned);
    let attempt = scanned().step(OpenReply::Repositories(vec![repository(1, "/project/sub")]));
    assert_eq!(message(attempt), "failed to resolve temporary repository handle");

    let attempt = scanned().step(OpenReply::Repositories(vec![repository(1, "/project")]));
    assert_eq!(message(attempt.step(OpenReply::Ready(false))), "temporary repository barrier canceled");
}

#[test]
fn other_answers_do_not_move_an_attempt() {
    let attempt = local().step(OpenReply::Ready(true)).step(OpenReply::Active(true));
    assert_eq!(attempt.pending(), OpenAction::FindAppState);
    assert!(attempt.finish().is_none());
}
