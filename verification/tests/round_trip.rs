//! A worktree that is saved and then restored.
use worktree_archive::backup::{Separator, TempDir};
use worktree_archive::model::{ArchivedGitWorktree, Outcome, OverwritePolicy, ProjectId, RepositoryId, WorktreeId};
use worktree_archive::path::DiskPath;
use worktree_archive::persist::{persist_worktree_state, Checkpoint, PersistAction, PersistReply};
use worktree_archive::plan::{AffectedProject, RootPlan};
use worktree_archive::restore::{restore_worktree_via_git, RestoreAction, RestoreReply};

#[test]
fn restores_bring_back_what_was_saved() {
    let root = RootPlan {
        root_path: DiskPath::new("/worktrees/project/topic".to_string()),
        main_repo_path: DiskPath::new("/project".to_string()),
        affected_projects: vec![AffectedProject {
            project: ProjectId(1),
            worktree_id: WorktreeId(1),
        }],
        worktree_repo: RepositoryId(1),
        branch_name: Some("topic".to_string()),
        remote_connection: None,
    };
    let saving = persist_worktree_state(&root)
        .step(PersistReply::Head(Outcome::Done(Some("abc123".to_string()))))
        .step(PersistReply::Checkpoint(Outcome::Done(Checkpoint {
            staged: "111".to_string(),
            unstaged: "222".to_string(),
        })));
    let row = match saving.pending() {
        PersistAction::CreateRecord {
            worktree_path,
            main_repo_path,
            branch_name,
            staged,
            unstaged,
            original,
        } => ArchivedGitWorktree {
            id: 8,
            worktree_path,
            main_repo_path,
            branch_name,
            staged_commit_hash: staged,
            unstaged_commit_hash: unstaged,
            original_commit_hash: original,
        },
        other => panic!("unexpected request: {other:?}"),
    };
    assert_eq!(row.duplicate(), row);

    let temp = TempDir { path: "/tmp".to_string(), separator: Separator::Slash };
    let mut restore = restore_worktree_via_git(&row, None, OverwritePolicy::Refuse, temp);
    let mut asked = Vec::new();
    for reply in [
        RestoreReply::AppState(true),
        RestoreReply::Opened(Ok(())),
        RestoreReply::Entry(Ok(None)),
        RestoreReply::Git(Outcome::Done(())),
        RestoreReply::Git(Outcome::Done(())),
        RestoreReply::Opened(Ok(())),
        RestoreReply::Git(Outcome::Done(())),
        RestoreReply::Head(Outcome::Done(Some("abc123".to_string()))),
        RestoreReply::Git(Outcome::Done(())),
    ] {
        asked.push(restore.pending());
        restore = restore.step(reply);
    }
    assert!(asked.contains(&RestoreAction::CreateWorktree {
        path: "/worktrees/project/topic".to_string(),
        commit: "abc123".to_string(),
    }));
    assert!(asked.contains(&RestoreAction::ChangeBranch { branch: "topic".to_string() }));
    assert!(asked.contains(&RestoreAction::RestoreCheckpoint {
        staged: "111".to_string(),
        unstaged: "222".to_string(),
    }));
    assert_eq!(restore.finish(), Some(Ok("/worktrees/project/topic".to_string())));
}
