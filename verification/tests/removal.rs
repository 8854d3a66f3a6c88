//! Removing worktrees from their projects and from disk.
use std::collections::BTreeMap;

use worktree_archive::error::ArchiveError;
use worktree_archive::model::{Outcome, ProjectId, RepositoryId, WorktreeId};
use worktree_archive::path::DiskPath;
use worktree_archive::plan::{build_root_plan, AffectedProject, RootPlan};
use worktree_archive::removal::{remove_root, RemoveAction, RemoveReply};
use worktree_archive::workspace::{OpenWorkspace, RepositoryEntry, WorktreeEntry};

const ROOT: &str = "/worktrees/project/feature/project";

fn path(text: &str) -> DiskPath {
    DiskPath::new(text.to_string())
}

#[derive(Clone, Copy, Debug, PartialEq)]
enum Node {
    Dir,
    File,
}

/// A machine with files, projects that have directories loaded, and the git
/// metadata of one repository.
struct World {
    files: BTreeMap<String, Node>,
    loaded: BTreeMap<u64, Vec<String>>,
    registered: Vec<String>,
    openable: Result<(), ArchiveError<String>>,
    canceled: bool,
    log: Vec<RemoveAction<String>>,
}

impl World {
    fn new() -> World {
        let mut files = BTreeMap::new();
        for dir in ["/project", "/project/.git", "/project/src", ROOT] {
            files.insert(dir.to_string(), Node::Dir);
        }
        files.insert("/project/src/main.rs".to_string(), Node::File);
        let mut loaded = BTreeMap::new();
        loaded.insert(1, vec!["/project".to_string(), ROOT.to_string()]);
        World {
            files,
            loaded,
            registered: vec![ROOT.to_string()],
            openable: Ok(()),
            canceled: false,
            log: Vec::new(),
        }
    }

    fn is_dir(&self, at: &str) -> bool {
        self.files.get(at) == Some(&Node::Dir)
    }

    fn is_file(&self, at: &str) -> bool {
        self.files.get(at) == Some(&Node::File)
    }

    /// Deletes the directory, then the git metadata.
    fn remove_worktree(&mut self, at: &str) -> Outcome<(), String> {
        if self.canceled {
            return Outcome::Canceled;
        }
        if self.is_file(at) {
            return Outcome::Failed(format!(
                "failed to delete worktree directory '{at}': not a directory"
            ));
        }
        self.files.remove(at);
        self.registered.retain(|registered| registered != at);
        Outcome::Done(())
    }

    fn run(&mut self, root: RootPlan) -> Result<(), ArchiveError<String>> {
        let mut removal = remove_root(root);
        for _ in 0..100 {
            let action = removal.pending();
            let reply = match &action {
                RemoveAction::Detach(affected) => {
                    let loaded = self.loaded.get_mut(&affected.project.0).unwrap();
                    loaded.retain(|at| at != ROOT);
                    RemoveReply::Detached
                }
                RemoveAction::AwaitRelease(_) => RemoveReply::Released,
                RemoveAction::OpenRepository { .. } => {
                    RemoveReply::Opened(std::mem::replace(&mut self.openable, Ok(())))
                }
                RemoveAction::RemoveWorktree { path } => {
                    RemoveReply::Removed(self.remove_worktree(path))
                }
                RemoveAction::ReAdd { project, path } => {
                    self.loaded.get_mut(&project.0).unwrap().push(path.clone());
                    RemoveReply::ReAdded
                }
                RemoveAction::Finish => return removal.finish().unwrap(),
            };
            self.log.push(action);
            removal = removal.step(reply);
        }
        panic!("the removal did not end");
    }
}

fn linked_workspace(project: u64) -> OpenWorkspace {
    OpenWorkspace {
        project: ProjectId(project),
        same_connection: true,
        worktrees: vec![
            WorktreeEntry { id: WorktreeId(10), path: path("/project") },
            WorktreeEntry { id: WorktreeId(20 + project), path: path(ROOT) },
        ],
        repositories: vec![
            RepositoryEntry {
                id: RepositoryId(1),
                work_directory: path("/project"),
                linked: false,
                main_worktree: Some(path("/project")),
                branch_name: Some("main".to_string()),
            },
            RepositoryEntry {
                id: RepositoryId(2),
                work_directory: path(ROOT),
                linked: true,
                main_worktree: Some(path("/project")),
                branch_name: Some("feature".to_string()),
            },
        ],
    }
}

fn plan(projects: &[u64]) -> RootPlan {
    let workspaces: Vec<OpenWorkspace> = projects.iter().map(|p| linked_workspace(*p)).collect();
    build_root_plan(&path(ROOT), None, &workspaces, Some(&path("/worktrees/project")))
        .expect("should produce a root plan for the linked worktree")
}

fn affected(project: u64) -> AffectedProject {
    AffectedProject { project: ProjectId(project), worktree_id: WorktreeId(20 + project) }
}

#[test]
fn test_remove_root_deletes_directory_and_git_metadata() {
    let mut world = World::new();
    let root = plan(&[1]);
    assert!(world.is_dir("/worktrees/project/feature/project"));

    world.run(root).expect("remove_root should succeed");

    assert!(
        !world.is_dir("/worktrees/project/feature/project"),
        "linked worktree directory should be removed"
    );
    assert!(world.registered.is_empty(), "git metadata should be removed");
    assert_eq!(world.loaded[&1], vec!["/project".to_string()]);
}

#[test]
fn test_remove_root_succeeds_when_directory_already_gone() {
    let mut world = World::new();
    let root = plan(&[1]);
    world.files.remove("/worktrees/project/feature/project");
    assert!(!world.is_dir("/worktrees/project/feature/project"));

    world.run(root).expect("remove_root should succeed even when directory is already gone");
}

#[test]
fn test_remove_root_returns_error_and_rolls_back_on_remove_dir_failure() {
    let mut world = World::new();
    let root = plan(&[1]);
    let worktree_path = "/worktrees/project/feature/project";
    world.files.insert(worktree_path.to_string(), Node::File);
    assert!(world.is_file(worktree_path), "path should now be a file, not a directory");

    let result = world.run(root);

    assert!(
        result.is_err(),
        "remove_root should return an error when the directory cannot be deleted"
    );
    let error_message = result.unwrap_err().message();
    assert!(
        error_message.contains("failed to delete worktree directory"),
        "error should mention the directory deletion failure, got: {error_message}"
    );
    assert_eq!(
        error_message,
        "git worktree metadata cleanup failed: failed to delete worktree directory \
         '/worktrees/project/feature/project': not a directory"
    );

    let has_worktree = world.loaded[&1].iter().any(|at| at == worktree_path);
    assert!(has_worktree, "rollback should have re-added the worktree to the project");
}

#[test]
fn every_project_lets_go_before_anything_is_removed() {
    let mut world = World::new();
    world.loaded.insert(2, vec![ROOT.to_string()]);
    world.run(plan(&[1, 2])).unwrap();
    assert_eq!(
        world.log,
        vec![
            RemoveAction::Detach(affected(1)),
            RemoveAction::Detach(affected(2)),
            RemoveAction::AwaitRelease(affected(1)),
            RemoveAction::AwaitRelease(affected(2)),
            RemoveAction::OpenRepository { path: "/project".to_string(), connection: None },
            RemoveAction::RemoveWorktree { path: ROOT.to_string() },
        ]
    );
}

#[test]
fn failed_removals_give_the_worktree_back_to_every_project() {
    let mut world = World::new();
    world.loaded.insert(2, vec![ROOT.to_string()]);
    world.openable = Err(ArchiveError::RemoteDisconnected);
    let error = world.run(plan(&[1, 2])).unwrap_err();
    assert_eq!(error.message(), "cannot open repository on disconnected remote machine");
    assert_eq!(
        world.log[5..],
        [
            RemoveAction::ReAdd { project: ProjectId(1), path: ROOT.to_string() },
            RemoveAction::ReAdd { project: ProjectId(2), path: ROOT.to_string() },
        ]
    );
    assert!(world.is_dir(ROOT));
    assert_eq!(world.loaded[&2], vec![ROOT.to_string()]);
}

#[test]
fn canceled_removals_fail_and_roll_back() {
    let mut world = World::new();
    world.canceled = true;
    let error = world.run(plan(&[1])).unwrap_err();
    assert_eq!(error, ArchiveError::MetadataCleanupCanceled);
    assert_eq!(error.message(), "git worktree metadata cleanup was canceled");
    assert!(world.loaded[&1].contains(&ROOT.to_string()));
}

#[test]
fn other_answers_do_not_move_a_removal() {
    let removal = remove_root(plan(&[1])).step(RemoveReply::ReAdded).step(RemoveReply::Released);
    assert_eq!(removal.pending(), RemoveAction::Detach(affected(1)));
    assert_eq!(removal.finish(), None);
}
