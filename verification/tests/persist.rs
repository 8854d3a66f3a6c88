//! Saving the state of a worktree.
use worktree_archive::error::ArchiveError;
use worktree_archive::model::{ConnectionId, Outcome, ProjectId, RepositoryId, ThreadId, WorktreeId};
use worktree_archive::path::DiskPath;
use worktree_archive::persist::{
    find_threads, persist_worktree_state, Checkpoint, PersistAction, PersistReply, PersistWorktree,
    ThreadEntry,
};
use worktree_archive::plan::{AffectedProject, RootPlan};
use worktree_archive::record::{rollback_persist, RecordAction, RecordReply};

const ROOT: &str = "/worktrees/project/feature/project";

type Saving = PersistWorktree<String, RootPlan, Vec<ThreadId>>;

type Reply = PersistReply<String, Vec<ThreadEntry>>;

fn plan(branch: Option<&str>) -> RootPlan {
    RootPlan {
        root_path: DiskPath::new(ROOT.to_string()),
        main_repo_path: DiskPath::new("/project".to_string()),
        affected_projects: vec![AffectedProject {
            project: ProjectId(1),
            worktree_id: WorktreeId(1),
        }],
        worktree_repo: RepositoryId(9),
        branch_name: branch.map(|name| name.to_string()),
        remote_connection: Some(ConnectionId(2)),
    }
}

fn thread(id: u128, folders: &[&str]) -> ThreadEntry {
    ThreadEntry {
        id: ThreadId(id),
        folder_paths: folders.iter().map(|at| DiskPath::new(at.to_string())).collect(),
    }
}

fn threads() -> Vec<ThreadEntry> {
    vec![
        thread(1, &["/project"]),
        thread(2, &["/project", ROOT]),
        thread(3, &[]),
        thread(4, &["/worktrees/project/feature/project/", ROOT]),
    ]
}

fn head() -> Reply {
    PersistReply::Head(Outcome::Done(Some("abc123".to_string())))
}

fn checkpoint() -> Reply {
    PersistReply::Checkpoint(Outcome::Done(Checkpoint {
        staged: "5745ed".to_string(),
        unstaged: "0f5745".to_string(),
    }))
}

fn run(branch: Option<&str>, replies: Vec<Reply>) -> (Vec<PersistAction<String>>, Saving) {
    let mut saving = persist_worktree_state(&plan(branch));
    let mut asked = Vec::new();
    for reply in replies {
        asked.push(saving.pending());
        saving = saving.step(reply);
    }
    (asked, saving)
}

fn message(saving: Saving) -> String {
    assert_eq!(saving.pending(), PersistAction::Finish);
    saving.finish().unwrap().unwrap_err().message()
}

#[test]
fn threads_are_found_by_their_folders() {
    let root = DiskPath::new(ROOT.to_string());
    assert_eq!(find_threads(&threads(), &root), vec![ThreadId(2), ThreadId(4)]);
    assert_eq!(find_threads(&Vec::new(), &root), Vec::new());
}

#[test]
fn successful_savings_do_everything_in_order() {
    let (asked, saving) = run(
        Some("feature"),
        vec![
            head(),
            checkpoint(),
            PersistReply::Record(Ok(41)),
            PersistReply::Threads(threads()),
            PersistReply::Linked(Ok(())),
            PersistReply::Linked(Ok(())),
            PersistReply::Opened(Ok(())),
            PersistReply::RefUpdated(Outcome::Done(())),
        ],
    );
    assert_eq!(
        asked,
        vec![
            PersistAction::ReadHead { repository: RepositoryId(9) },
            PersistAction::CreateCheckpoint { repository: RepositoryId(9) },
            PersistAction::CreateRecord {
                worktree_path: ROOT.to_string(),
                main_repo_path: "/project".to_string(),
                branch_name: Some("feature".to_string()),
                staged: "5745ed".to_string(),
                unstaged: "0f5745".to_string(),
                original: "abc123".to_string(),
            },
            PersistAction::ListThreads,
            PersistAction::LinkThread { thread: ThreadId(2), id: 41 },
            PersistAction::LinkThread { thread: ThreadId(4), id: 41 },
            PersistAction::OpenRepository {
                path: "/project".to_string(),
                connection: Some(ConnectionId(2)),
            },
            PersistAction::UpdateRef {
                name: "refs/archived-worktrees/41".to_string(),
                commit: "0f5745".to_string(),
            },
        ]
    );
    assert_eq!(saving.finish(), Some(Ok(41)));

    // A rollback deletes the same ref and the same record.
    let rollback = rollback_persist(41, &plan(Some("feature"))).step(RecordReply::Opened(true));
    assert_eq!(
        rollback.pending(),
        RecordAction::DeleteRef { name: "refs/archived-worktrees/41".to_string() }
    );
    let rollback = rollback.step(RecordReply::RefDeleted);
    assert_eq!(rollback.pending(), RecordAction::DeleteRecord { id: 41 });
}

#[test]
fn branches_are_asked_for_where_the_plan_names_none() {
    for branch in [Some("topic".to_string()), None] {
        let (asked, saving) =
            run(None, vec![head(), checkpoint(), PersistReply::Branch(branch.clone())]);
        assert_eq!(asked[2], PersistAction::ReadBranch { repository: RepositoryId(9) });
        assert!(matches!(
            saving.pending(),
            PersistAction::CreateRecord { branch_name, .. } if branch_name == branch
        ));
    }
}

#[test]
fn heads_that_cannot_be_read_end_a_saving() {
    let (_, saving) = run(None, vec![PersistReply::Head(Outcome::Canceled)]);
    assert_eq!(message(saving), "head_sha canceled");
    let (_, saving) = run(None, vec![PersistReply::Head(Outcome::Failed("bad ref".to_string()))]);
    assert_eq!(message(saving), "failed to read original HEAD SHA: bad ref");
    let (_, saving) = run(None, vec![PersistReply::Head(Outcome::Done(None))]);
    assert_eq!(message(saving), "HEAD SHA is None");
}

#[test]
fn checkpoints_that_cannot_be_written_end_a_saving() {
    let (_, saving) = run(None, vec![head(), PersistReply::Checkpoint(Outcome::Canceled)]);
    assert_eq!(message(saving), "create_archive_checkpoint canceled");
    let failed = PersistReply::Checkpoint(Outcome::Failed("disk full".to_string()));
    let (_, saving) = run(None, vec![head(), failed]);
    assert_eq!(message(saving), "failed to create archive checkpoint: disk full");
}

#[test]
fn records_that_cannot_be_written_end_a_saving() {
    let failed = PersistReply::Record(Err("locked".to_string()));
    let (_, saving) = run(Some("feature"), vec![head(), checkpoint(), failed]);
    assert_eq!(message(saving), "failed to create archived worktree DB record: locked");
}

#[test]
fn failed_links_take_the_record_back() {
    let (asked, saving) = run(
        Some("feature"),
        vec![
            head(),
            checkpoint(),
            PersistReply::Record(Ok(41)),
            PersistReply::Threads(threads()),
            PersistReply::Linked(Ok(())),
            PersistReply::Linked(Err("constraint".to_string())),
            PersistReply::RecordDeleted,
        ],
    );
    assert_eq!(asked[6], PersistAction::DeleteRecord { id: 41 });
    assert_eq!(message(saving), "failed to link thread to archived worktree: constraint");
}

fn up_to_the_ref(opened: Result<(), ArchiveError<String>>) -> Vec<Reply> {
    vec![
        head(),
        checkpoint(),
        PersistReply::Record(Ok(3)),
        PersistReply::Threads(Vec::new()),
        PersistReply::Opened(opened),
    ]
}

#[test]
fn savings_without_threads_go_straight_to_the_ref() {
    let (_, saving) = run(Some("feature"), up_to_the_ref(Ok(())));
    assert_eq!(
        saving.pending(),
        PersistAction::UpdateRef {
            name: "refs/archived-worktrees/3".to_string(),
            commit: "0f5745".to_string(),
        }
    );
}

#[test]
fn refs_that_cannot_be_written_end_a_saving() {
    let (_, saving) = run(Some("feature"), up_to_the_ref(Err(ArchiveError::RemoteDisconnected)));
    assert_eq!(
        message(saving),
        "could not open main repo to create archive ref: \
         cannot open repository on disconnected remote machine"
    );

    let (_, saving) = run(Some("feature"), up_to_the_ref(Ok(())));
    let saving = saving.step(PersistReply::RefUpdated(Outcome::Failed("denied".to_string())));
    assert_eq!(
        message(saving),
        "failed to create ref refs/archived-worktrees/3 on main repo: denied"
    );

    let (_, saving) = run(Some("feature"), up_to_the_ref(Ok(())));
    let saving = saving.step(PersistReply::RefUpdated(Outcome::Canceled));
    assert_eq!(
        message(saving),
        "failed to create ref refs/archived-worktrees/3 on main repo: update_ref canceled"
    );
}

#[test]
fn other_answers_do_not_move_a_saving() {
    let (_, saving) = run(None, vec![PersistReply::RecordDeleted, checkpoint()]);
    assert_eq!(saving.pending(), PersistAction::ReadHead { repository: RepositoryId(9) });
    assert_eq!(saving.finish(), None);
}
