//! Which worktrees can be archived, and what the plan for one holds.
use worktree_archive::model::{ConnectionId, ProjectId, RepositoryId, WorktreeId};
use worktree_archive::path::DiskPath;
use worktree_archive::plan::{build_root_plan, find_main_repository, AffectedProject, RootPlan};
use worktree_archive::workspace::{OpenWorkspace, RepositoryEntry, WorktreeEntry};

fn path(text: &str) -> DiskPath {
    DiskPath::new(text.to_string())
}

fn worktree(id: u64, at: &str) -> WorktreeEntry {
    WorktreeEntry { id: WorktreeId(id), path: path(at) }
}

fn main_repository(id: u64, at: &str, branch: &str) -> RepositoryEntry {
    RepositoryEntry {
        id: RepositoryId(id),
        work_directory: path(at),
        linked: false,
        main_worktree: Some(path(at)),
        branch_name: Some(branch.to_string()),
    }
}

fn linked_repository(id: u64, at: &str, main: &str, branch: Option<&str>) -> RepositoryEntry {
    RepositoryEntry {
        id: RepositoryId(id),
        work_directory: path(at),
        linked: true,
        main_worktree: Some(path(main)),
        branch_name: branch.map(|name| name.to_string()),
    }
}

fn workspace(
    project: u64,
    worktrees: Vec<WorktreeEntry>,
    repositories: Vec<RepositoryEntry>,
) -> OpenWorkspace {
    OpenWorkspace { project: ProjectId(project), same_connection: true, worktrees, repositories }
}

/// The directory for worktrees of the repository at `main`, under `setting`.
fn managed(main: &DiskPath, setting: &str) -> DiskPath {
    let name = main.text().trim_start_matches('/').to_string();
    path(&format!("{setting}/{name}"))
}

fn plan_in(at: &str, workspaces: &Vec<OpenWorkspace>, setting: &str) -> Option<RootPlan> {
    let target = path(at);
    let base = find_main_repository(&target, workspaces).map(|main| managed(&main, setting));
    build_root_plan(&target, None, workspaces, base.as_ref())
}

#[test]
fn test_build_root_plan_returns_none_for_main_worktree() {
    let workspaces = vec![workspace(
        1,
        vec![worktree(1, "/project")],
        vec![main_repository(1, "/project", "main")],
    )];

    let plan = plan_in("/project", &workspaces, "/worktrees");
    assert!(plan.is_none(), "build_root_plan should return None for a main worktree");
}

#[test]
fn test_build_root_plan_returns_some_for_linked_worktree() {
    let workspaces = vec![workspace(
        1,
        vec![worktree(1, "/project"), worktree(2, "/worktrees/project/feature/project")],
        vec![
            main_repository(1, "/project", "main"),
            linked_repository(2, "/worktrees/project/feature/project", "/project", Some("feature")),
        ],
    )];

    // The linked worktree SHOULD produce a root plan.
    let plan = plan_in("/worktrees/project/feature/project", &workspaces, "/worktrees");
    assert!(plan.is_some(), "build_root_plan should return Some for a linked worktree");
    let plan = plan.unwrap();
    assert!(plan.root_path.is_same(&path("/worktrees/project/feature/project")));
    assert_eq!(plan.root_path.text(), "/worktrees/project/feature/project");
    assert!(plan.main_repo_path.is_same(&path("/project")));
    assert_eq!(plan.main_repo_path.text(), "/project");

    // The main worktree should still return None.
    let main_plan = plan_in("/project", &workspaces, "/worktrees");
    assert!(
        main_plan.is_none(),
        "build_root_plan should return None for the main worktree even when a linked worktree exists",
    );
}

#[test]
fn test_build_root_plan_returns_none_for_external_linked_worktree() {
    let workspaces = vec![workspace(
        1,
        vec![worktree(1, "/project"), worktree(2, "/external-worktree")],
        vec![
            main_repository(1, "/project", "main"),
            linked_repository(2, "/external-worktree", "/project", Some("feature")),
        ],
    )];

    let plan = plan_in("/external-worktree", &workspaces, "/worktrees");
    assert!(
        plan.is_none(),
        "build_root_plan should return None for a linked worktree outside the managed worktrees directory",
    );
}

#[test]
fn test_build_root_plan_with_custom_worktree_directory() {
    let workspaces = vec![workspace(
        1,
        vec![
            worktree(1, "/project"),
            worktree(2, "/custom-worktrees/project/feature/project"),
            worktree(3, "/worktrees/project/feature2/project"),
        ],
        vec![
            main_repository(1, "/project", "main"),
            linked_repository(
                2,
                "/custom-worktrees/project/feature/project",
                "/project",
                Some("feature"),
            ),
            linked_repository(3, "/worktrees/project/feature2/project", "/project", Some("feature2")),
        ],
    )];

    // Worktree inside the custom managed directory SHOULD be archivable.
    let plan = plan_in("/custom-worktrees/project/feature/project", &workspaces, "/custom-worktrees");
    assert!(
        plan.is_some(),
        "build_root_plan should return Some for a worktree inside the custom worktree_directory",
    );

    // Worktree at the default location SHOULD NOT be archivable because the
    // setting points elsewhere.
    let plan = plan_in("/worktrees/project/feature2/project", &workspaces, "/custom-worktrees");
    assert!(
        plan.is_none(),
        "build_root_plan should return None for a worktree outside the custom worktree_directory, \
         even if it would match the default",
    );
}

#[test]
fn plan_names_every_project_with_the_worktree_in_order() {
    let at = "/worktrees/project/feature/project";
    let mut elsewhere = workspace(4, vec![worktree(9, at)], vec![]);
    elsewhere.same_connection = false;
    let workspaces = vec![
        workspace(7, vec![worktree(3, "/other"), worktree(4, at), worktree(5, at)], vec![]),
        elsewhere,
        workspace(2, vec![worktree(1, "/other")], vec![]),
        workspace(
            3,
            vec![worktree(8, "/worktrees/project/feature/./project/")],
            vec![linked_repository(21, at, "/project", None), linked_repository(22, at, "/else", None)],
        ),
    ];
    let plan = build_root_plan(
        &path(at),
        Some(ConnectionId(5)),
        &workspaces,
        Some(&path("/worktrees/project")),
    )
    .unwrap();
    assert_eq!(
        plan.affected_projects,
        vec![
            AffectedProject { project: ProjectId(7), worktree_id: WorktreeId(4) },
            AffectedProject { project: ProjectId(3), worktree_id: WorktreeId(8) },
        ]
    );
    assert_eq!(plan.worktree_repo, RepositoryId(21));
    assert_eq!(plan.branch_name, None);
    assert_eq!(plan.main_repo_path.text(), "/project");
    assert_eq!(plan.remote_connection, Some(ConnectionId(5)));

    let copy = plan.duplicate();
    assert_eq!(copy.root_path.text(), at);
    assert_eq!(copy.affected_projects, plan.affected_projects);
    assert_eq!(copy.remote_connection, Some(ConnectionId(5)));
}

#[test]
fn no_plan_without_a_project_that_has_the_worktree() {
    let at = "/worktrees/project/feature/project";
    let workspaces = vec![workspace(
        1,
        vec![worktree(1, "/project")],
        vec![linked_repository(2, at, "/project", Some("feature"))],
    )];
    assert!(find_main_repository(&path(at), &workspaces).is_none());
    assert!(build_root_plan(&path(at), None, &workspaces, Some(&path("/worktrees/project"))).is_none());
}

#[test]
fn no_plan_from_repositories_on_another_machine() {
    let at = "/worktrees/project/feature/project";
    let mut remote = workspace(
        2,
        vec![worktree(1, at)],
        vec![linked_repository(2, at, "/project", Some("feature"))],
    );
    remote.same_connection = false;
    let workspaces = vec![workspace(1, vec![worktree(1, at)], vec![]), remote];
    assert!(build_root_plan(&path(at), None, &workspaces, Some(&path("/worktrees/project"))).is_none());
}

#[test]
fn no_plan_without_a_main_worktree_or_a_managed_directory() {
    let at = "/worktrees/project/feature/project";
    let mut repository = linked_repository(2, at, "/project", Some("feature"));
    repository.main_worktree = None;
    let orphan = vec![workspace(1, vec![worktree(1, at)], vec![repository])];
    assert!(build_root_plan(&path(at), None, &orphan, Some(&path("/worktrees/project"))).is_none());

    let workspaces = vec![workspace(
        1,
        vec![worktree(1, at)],
        vec![linked_repository(2, at, "/project", Some("feature"))],
    )];
    assert!(build_root_plan(&path(at), None, &workspaces, None).is_none());
    // A directory whose name only begins alike does not hold the worktree.
    assert!(build_root_plan(&path(at), None, &workspaces, Some(&path("/worktrees/proj"))).is_none());
    let plan = build_root_plan(&path(at), None, &workspaces, Some(&path("/worktrees/project/"))).unwrap();
    assert_eq!(plan.branch_name, Some("feature".to_string()));
}
