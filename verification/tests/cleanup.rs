//! Deleting records, and cleaning up after threads.
use worktree_archive::model::{ArchivedGitWorktree, ConnectionId, ProjectId, RepositoryId, ThreadId, WorktreeId};
use worktree_archive::path::DiskPath;
use worktree_archive::plan::{AffectedProject, RootPlan};
use worktree_archive::record::{
    cleanup_archived_worktree_record, rollback_persist, RecordAction, RecordDeletion, RecordReply,
};
use worktree_archive::thread_cleanup::{cleanup_thread_archived_worktrees, CleanupAction, CleanupReply};

fn row(id: i64) -> ArchivedGitWorktree<String> {
    ArchivedGitWorktree {
        id,
        worktree_path: format!("/worktrees/project/{id}"),
        main_repo_path: "/project".to_string(),
        branch_name: Some("feature".to_string()),
        staged_commit_hash: format!("staged-{id}"),
        unstaged_commit_hash: format!("unstaged-{id}"),
        original_commit_hash: format!("original-{id}"),
    }
}

fn delete(mut deletion: RecordDeletion<String>, opened: bool) -> Vec<RecordAction<String>> {
    let mut asked = Vec::new();
    for _ in 0..10 {
        let action = deletion.pending();
        let reply = match &action {
            RecordAction::OpenRepository { .. } => RecordReply::Opened(opened),
            RecordAction::DeleteRef { .. } => RecordReply::RefDeleted,
            RecordAction::DeleteRecord { .. } => RecordReply::RecordDeleted,
            RecordAction::Finish => return asked,
        };
        asked.push(action);
        deletion = deletion.step(reply);
    }
    panic!("the deletion did not end");
}

#[test]
fn records_go_with_their_refs() {
    let deletion = cleanup_archived_worktree_record(&row(12), Some(ConnectionId(3)));
    assert_eq!(
        delete(deletion, true),
        vec![
            RecordAction::OpenRepository {
                path: "/project".to_string(),
                connection: Some(ConnectionId(3)),
            },
            RecordAction::DeleteRef { name: "refs/archived-worktrees/12".to_string() },
            RecordAction::DeleteRecord { id: 12 },
        ]
    );
}

#[test]
fn records_go_even_if_the_repository_cannot_be_opened() {
    let deletion = cleanup_archived_worktree_record(&row(12), None);
    assert_eq!(
        delete(deletion, false),
        vec![
            RecordAction::OpenRepository { path: "/project".to_string(), connection: None },
            RecordAction::DeleteRecord { id: 12 },
        ]
    );
}

#[test]
fn rollbacks_delete_what_the_plan_and_the_id_name() {
    let root = RootPlan {
        root_path: DiskPath::new("/worktrees/project/x".to_string()),
        main_repo_path: DiskPath::new("/project".to_string()),
        affected_projects: vec![AffectedProject {
            project: ProjectId(1),
            worktree_id: WorktreeId(1),
        }],
        worktree_repo: RepositoryId(1),
        branch_name: None,
        remote_connection: Some(ConnectionId(8)),
    };
    assert_eq!(
        delete(rollback_persist(-5, &root), true),
        vec![
            RecordAction::OpenRepository {
                path: "/project".to_string(),
                connection: Some(ConnectionId(8)),
            },
            RecordAction::DeleteRef { name: "refs/archived-worktrees/-5".to_string() },
            RecordAction::DeleteRecord { id: -5 },
        ]
    );
}

#[test]
fn other_answers_do_not_move_a_deletion() {
    let deletion = cleanup_archived_worktree_record(&row(1), None)
        .step(RecordReply::RecordDeleted)
        .step(RecordReply::RefDeleted);
    assert_eq!(
        deletion.pending(),
        RecordAction::OpenRepository { path: "/project".to_string(), connection: None }
    );
}

/// What the store of a thread answers.
struct Store {
    connection: Option<ConnectionId>,
    rows: Option<Vec<i64>>,
    unlinks: bool,
    referenced: fn(i64) -> Option<bool>,
}

fn clean_up(store: Store) -> Vec<CleanupAction<ArchivedGitWorktree<String>>> {
    let mut cleanup = cleanup_thread_archived_worktrees(ThreadId(77));
    let mut asked = Vec::new();
    for _ in 0..100 {
        let action = cleanup.pending();
        let reply = match &action {
            CleanupAction::FindConnection(_) => CleanupReply::Connection(store.connection),
            CleanupAction::FetchRecords(_) => CleanupReply::Records(
                store.rows.as_ref().map(|ids| ids.iter().map(|id| row(*id)).collect()),
            ),
            CleanupAction::UnlinkThread(_) => CleanupReply::Unlinked(store.unlinks),
            CleanupAction::CheckReferenced { id } => {
                CleanupReply::Referenced((store.referenced)(*id))
            }
            CleanupAction::CleanUpRecord { .. } => CleanupReply::CleanedUp,
            CleanupAction::Finish => return asked,
        };
        asked.push(action);
        cleanup = cleanup.step(reply);
    }
    panic!("the cleanup did not end");
}

#[test]
fn only_unreferenced_records_go_with_their_thread() {
    let asked = clean_up(Store {
        connection: Some(ConnectionId(6)),
        rows: Some(vec![1, 2, 3, 4]),
        unlinks: true,
        referenced: |id| match id {
            1 => Some(true),
            3 => None,
            _ => Some(false),
        },
    });
    assert_eq!(
        asked,
        vec![
            CleanupAction::FindConnection(ThreadId(77)),
            CleanupAction::FetchRecords(ThreadId(77)),
            CleanupAction::UnlinkThread(ThreadId(77)),
            CleanupAction::CheckReferenced { id: 1 },
            CleanupAction::CheckReferenced { id: 2 },
            CleanupAction::CleanUpRecord { row: row(2), connection: Some(ConnectionId(6)) },
            CleanupAction::CheckReferenced { id: 3 },
            CleanupAction::CheckReferenced { id: 4 },
            CleanupAction::CleanUpRecord { row: row(4), connection: Some(ConnectionId(6)) },
        ]
    );
}

#[test]
fn nothing_is_cleaned_up_unless_the_thread_is_unlinked() {
    let asked = clean_up(Store {
        connection: None,
        rows: Some(vec![1]),
        unlinks: false,
        referenced: |_| Some(false),
    });
    assert_eq!(asked.len(), 3);
    assert_eq!(asked[2], CleanupAction::UnlinkThread(ThreadId(77)));

    let asked = clean_up(Store {
        connection: None,
        rows: None,
        unlinks: true,
        referenced: |_| Some(false),
    });
    assert_eq!(asked.len(), 2);

    let asked = clean_up(Store {
        connection: None,
        rows: Some(vec![]),
        unlinks: true,
        referenced: |_| Some(false),
    });
    assert_eq!(asked.len(), 2);
}

#[test]
fn other_answers_do_not_move_a_cleanup() {
    let cleanup = cleanup_thread_archived_worktrees(ThreadId(1))
        .step(CleanupReply::CleanedUp)
        .step(CleanupReply::Unlinked(true));
    assert_eq!(cleanup.pending(), CleanupAction::FindConnection(ThreadId(1)));
}
