//! Restoring archived worktrees.
use worktree_archive::backup::{Separator, TempDir};
use worktree_archive::content::{worktree_path_has_content, ContentReply};
use worktree_archive::error::ArchiveError;
use worktree_archive::model::{ArchivedGitWorktree, ConnectionId, EntryKind, Outcome, OverwritePolicy};
use worktree_archive::restore::{
    restore_worktree_via_git, Alert, RepositoryRole, RestoreAction,
    RestoreReply, RestoreWorktree,
};

const PATH: &str = "/worktrees/project/feature/project";

const DIR: &str = "/tmp/zed-restore-backup-token";

const TARGET: &str = "/tmp/zed-restore-backup-token/worktree";

fn s(text: &str) -> String {
    text.to_string()
}

fn row(branch: Option<&str>) -> ArchivedGitWorktree<String> {
    ArchivedGitWorktree {
        id: 5,
        worktree_path: s(PATH),
        main_repo_path: s("/project"),
        branch_name: branch.map(s),
        staged_commit_hash: s("staged"),
        unstaged_commit_hash: s("unstaged"),
        original_commit_hash: s("original"),
    }
}

fn temp() -> TempDir<String> {
    TempDir { path: s("/tmp"), separator: Separator::Slash }
}

fn start(branch: Option<&str>, policy: OverwritePolicy) -> RestoreWorktree<String> {
    restore_worktree_via_git(&row(branch), None, policy, temp())
}

/// Runs a restore whose backup gets the name `token`.
fn run(
    mut restore: RestoreWorktree<String>,
    replies: Vec<RestoreReply<String>>,
) -> (Vec<RestoreAction<String>>, RestoreWorktree<String>) {
    let mut asked = Vec::new();
    for reply in replies {
        asked.push(restore.pending());
        restore = restore.answer(reply);
        if restore.pending() == RestoreAction::DrawToken {
            restore = restore.answer(RestoreReply::Token(s("token")));
        }
    }
    (asked, restore)
}

fn dir() -> RestoreReply<String> {
    RestoreReply::Entry(Ok(Some(EntryKind { is_dir: true, is_symlink: false })))
}

fn file() -> RestoreReply<String> {
    RestoreReply::Entry(Ok(Some(EntryKind { is_dir: false, is_symlink: false })))
}

fn missing() -> RestoreReply<String> {
    RestoreReply::Entry(Ok(None))
}

fn git() -> RestoreReply<String> {
    RestoreReply::Git(Outcome::Done(()))
}

fn git_failed(cause: &str) -> RestoreReply<String> {
    RestoreReply::Git(Outcome::Failed(s(cause)))
}

fn files() -> RestoreReply<String> {
    RestoreReply::Files(Ok(()))
}

fn opened() -> RestoreReply<String> {
    RestoreReply::Opened(Ok(()))
}

fn head(commit: &str) -> RestoreReply<String> {
    RestoreReply::Head(Outcome::Done(Some(s(commit))))
}

/// A restore that has found nothing at the path.
fn fresh(branch: Option<&str>) -> RestoreWorktree<String> {
    run(
        start(branch, OverwritePolicy::Overwrite),
        vec![RestoreReply::AppState(true), opened(), missing()],
    )
    .1
}

/// A restore that has moved a file aside.
fn moved(branch: Option<&str>) -> RestoreWorktree<String> {
    run(
        start(branch, OverwritePolicy::Overwrite),
        vec![RestoreReply::AppState(true), opened(), file(), files(), files()],
    )
    .1
}

fn message(restore: RestoreWorktree<String>) -> String {
    assert_eq!(restore.pending(), RestoreAction::Finish);
    restore.finish().unwrap().unwrap_err().message()
}

#[test]
fn plain_restores_create_the_worktree_and_read_the_trees_back() {
    let (asked, restore) = run(
        start(Some("feature"), OverwritePolicy::Refuse),
        vec![
            RestoreReply::AppState(true),
            opened(),
            missing(),
            git_failed("fatal: is not a working tree"),
            git(),
            opened(),
            git(),
            head("original"),
            git(),
        ],
    );
    assert_eq!(
        asked,
        vec![
            RestoreAction::FindAppState,
            RestoreAction::OpenRepository { role: RepositoryRole::Main, path: s("/project") },
            RestoreAction::ReadEntry { path: s(PATH) },
            RestoreAction::RemoveWorktree { path: s(PATH) },
            RestoreAction::CreateWorktree { path: s(PATH), commit: s("original") },
            RestoreAction::OpenRepository { role: RepositoryRole::Worktree, path: s(PATH) },
            RestoreAction::ChangeBranch { branch: s("feature") },
            RestoreAction::ReadHead,
            RestoreAction::RestoreCheckpoint { staged: s("staged"), unstaged: s("unstaged") },
        ]
    );
    assert_eq!(restore.finish(), Some(Ok(s(PATH))));
}

#[test]
fn content_is_moved_aside_and_its_backup_dropped_on_success() {
    let (asked, restore) = run(
        start(None, OverwritePolicy::Overwrite),
        vec![
            RestoreReply::AppState(true),
            opened(),
            dir(),
            files(),
            files(),
            git(),
            git(),
            opened(),
            git(),
            RestoreReply::Files(Err(s("busy"))),
        ],
    );
    assert_eq!(
        asked[3..],
        [
            RestoreAction::CreateBackupDirectory { dir: s(DIR) },
            RestoreAction::MoveAside { from: s(PATH), to: s(TARGET) },
            RestoreAction::RemoveWorktree { path: s(PATH) },
            RestoreAction::CreateWorktree { path: s(PATH), commit: s("original") },
            RestoreAction::OpenRepository { role: RepositoryRole::Worktree, path: s(PATH) },
            RestoreAction::RestoreCheckpoint { staged: s("staged"), unstaged: s("unstaged") },
            RestoreAction::DropBackup { dir: s(DIR) },
        ]
    );
    assert_eq!(restore.finish(), Some(Ok(s(PATH))));
}

#[test]
fn backups_are_named_by_a_random_uuid() {
    let mut names = Vec::new();
    for _ in 0..8 {
        let restore = start(None, OverwritePolicy::Overwrite)
            .step(RestoreReply::AppState(true))
            .step(opened())
            .step(file());
        let made = match restore.pending() {
            RestoreAction::CreateBackupDirectory { dir } => dir,
            other => panic!("unexpected request: {other:?}"),
        };
        let token = made.strip_prefix("/tmp/zed-restore-backup-").unwrap().to_string();
        assert_eq!(token.len(), 36);
        let parsed = uuid::Uuid::parse_str(&token).unwrap();
        assert_eq!(parsed.get_version_num(), 4);
        assert_eq!(parsed.hyphenated().to_string(), token);
        names.push(token);
    }
    names.sort();
    names.dedup();
    assert!(names.len() > 1);
}

#[test]
fn tokens_are_drawn_only_for_what_is_moved_aside() {
    let restore = start(None, OverwritePolicy::Overwrite)
        .step(RestoreReply::AppState(true))
        .step(opened())
        .step(missing());
    assert_eq!(restore.token, "");
    assert_eq!(restore.pending(), RestoreAction::RemoveWorktree { path: s(PATH) });

    let restore = start(None, OverwritePolicy::Refuse)
        .step(RestoreReply::AppState(true))
        .step(opened())
        .step(file());
    assert_eq!(restore.token, "");
    let restore = restore.step(file());
    assert_eq!(restore.token, "");
    assert_eq!(restore.pending(), RestoreAction::Finish);

    let restore = start(None, OverwritePolicy::Overwrite)
        .answer(RestoreReply::AppState(true))
        .answer(opened())
        .answer(file());
    assert_eq!(restore.pending(), RestoreAction::DrawToken);
    let restore = restore.answer(RestoreReply::Token(s("token")));
    assert_eq!(restore.pending(), RestoreAction::CreateBackupDirectory { dir: s(DIR) });
}

#[test]
fn refusing_restores_leave_content_alone() {
    let probed = vec![RestoreReply::AppState(true), opened(), file(), file()];
    let (asked, restore) = run(start(None, OverwritePolicy::Refuse), probed);
    assert_eq!(asked[3], RestoreAction::ReadEntry { path: s(PATH) });
    assert_eq!(
        message(restore),
        "worktree path '/worktrees/project/feature/project' has existing content; \
         use OverwritePolicy::Overwrite to proceed"
    );

    let probed =
        vec![RestoreReply::AppState(true), opened(), dir(), dir(), RestoreReply::Listing(Ok(true))];
    let (asked, restore) = run(start(None, OverwritePolicy::Refuse), probed);
    assert_eq!(asked[4], RestoreAction::ReadDirectory { path: s(PATH) });
    assert_eq!(
        restore.finish(),
        Some(Err(ArchiveError::ExistingContent { path: s(PATH) }))
    );
}

#[test]
fn refusing_restores_move_an_empty_directory_aside() {
    let probed =
        vec![RestoreReply::AppState(true), opened(), dir(), dir(), RestoreReply::Listing(Ok(false))];
    let (_, restore) = run(start(None, OverwritePolicy::Refuse), probed);
    assert_eq!(restore.pending(), RestoreAction::CreateBackupDirectory { dir: s(DIR) });
}

#[test]
fn refusing_restores_agree_with_the_check_for_content() {
    for kind in [
        None,
        Some(EntryKind { is_dir: false, is_symlink: false }),
        Some(EntryKind { is_dir: true, is_symlink: false }),
        Some(EntryKind { is_dir: true, is_symlink: true }),
    ] {
        for occupied in [false, true] {
            let check = worktree_path_has_content(s(PATH))
                .step(ContentReply::Entry(Ok(kind)))
                .step(ContentReply::Listing(Ok(occupied)));
            let content = check.finish().unwrap().unwrap();
            let (_, restore) = run(
                start(None, OverwritePolicy::Refuse),
                vec![
                    RestoreReply::AppState(true),
                    opened(),
                    file(),
                    RestoreReply::Entry(Ok(kind)),
                    RestoreReply::Listing(Ok(occupied)),
                ],
            );
            if content {
                assert_eq!(
                    restore.finish(),
                    Some(Err(ArchiveError::ExistingContent { path: s(PATH) }))
                );
            } else {
                assert_eq!(restore.pending(), RestoreAction::CreateBackupDirectory { dir: s(DIR) });
            }
        }
    }
}

#[test]
fn failures_before_the_backup_leave_nothing_to_undo() {
    let (_, restore) =
        run(start(None, OverwritePolicy::Overwrite), vec![RestoreReply::AppState(false)]);
    assert_eq!(message(restore), "no app state available");

    let failed = RestoreReply::Opened(Err(ArchiveError::TemporaryRepositoryUnresolved));
    let (_, restore) =
        run(start(None, OverwritePolicy::Overwrite), vec![RestoreReply::AppState(true), failed]);
    assert_eq!(message(restore), "failed to resolve temporary repository handle");

    let unreadable = RestoreReply::Entry(Err(s("denied")));
    let (_, restore) = run(
        start(None, OverwritePolicy::Overwrite),
        vec![RestoreReply::AppState(true), opened(), unreadable],
    );
    assert_eq!(message(restore), "denied");

    let unreadable = RestoreReply::Entry(Err(s("denied again")));
    let (_, restore) = run(
        start(None, OverwritePolicy::Refuse),
        vec![RestoreReply::AppState(true), opened(), dir(), unreadable],
    );
    assert_eq!(message(restore), "denied again");

    let unreadable = RestoreReply::Listing(Err(s("denied still")));
    let (_, restore) = run(
        start(None, OverwritePolicy::Refuse),
        vec![RestoreReply::AppState(true), opened(), dir(), dir(), unreadable],
    );
    assert_eq!(message(restore), "denied still");
}

#[test]
fn backups_that_cannot_be_made_end_a_restore() {
    let found = || vec![RestoreReply::AppState(true), opened(), file()];
    let (_, restore) = run(start(None, OverwritePolicy::Overwrite), found());
    let restore = restore.step(RestoreReply::Files(Err(s("read-only"))));
    assert_eq!(
        message(restore),
        "failed to create backup directory '/tmp/zed-restore-backup-token': read-only"
    );

    let (_, restore) = run(start(None, OverwritePolicy::Overwrite), found());
    let restore = restore.step(files()).step(RestoreReply::Files(Err(s("other device"))));
    assert_eq!(
        message(restore),
        "failed to move existing path '/worktrees/project/feature/project' to backup \
         '/tmp/zed-restore-backup-token/worktree': other device"
    );
}

#[test]
fn stale_registrations_that_stay_end_a_restore() {
    let restore = fresh(None).step(git_failed("lock held"));
    assert_eq!(
        message(restore),
        "failed to remove stale worktree registration for \
         '/worktrees/project/feature/project': lock held"
    );
    let restore = fresh(None).step(RestoreReply::Git(Outcome::Canceled));
    assert_eq!(
        message(restore),
        "failed to remove stale worktree registration for \
         '/worktrees/project/feature/project': worktree remove was canceled"
    );
    // With content moved aside, the content comes back first.
    let restore = moved(None).step(git_failed("lock held"));
    assert_eq!(restore.pending(), RestoreAction::ReadEntry { path: s(PATH) });
}

#[test]
fn missing_registrations_do_not_stop_a_restore() {
    for cause in ["'/wt' is not a working tree", "no worktree found"] {
        let restore = fresh(None).step(git_failed(cause));
        assert_eq!(
            restore.pending(),
            RestoreAction::CreateWorktree { path: s(PATH), commit: s("original") }
        );
    }
}

#[test]
fn failed_creations_are_undone_and_content_is_moved_back() {
    let (asked, restore) = run(
        moved(None),
        vec![git(), git_failed("disk full"), git_failed("still"), missing(), files(), files()],
    );
    assert_eq!(
        asked[2..],
        [
            RestoreAction::RemoveWorktree { path: s(PATH) },
            RestoreAction::ReadEntry { path: s(PATH) },
            RestoreAction::MoveBack { from: s(TARGET), to: s(PATH) },
            RestoreAction::DropBackup { dir: s(DIR) },
        ]
    );
    assert_eq!(message(restore), "failed to create worktree: disk full");

    let (_, restore) = run(fresh(None), vec![git(), RestoreReply::Git(Outcome::Canceled), git()]);
    assert_eq!(message(restore), "worktree creation was canceled");
}

#[test]
fn worktrees_that_cannot_be_opened_are_removed_again() {
    let failed = RestoreReply::Opened(Err(ArchiveError::TemporaryRepositoryBarrierCanceled));
    let (asked, restore) = run(fresh(None), vec![git(), git(), failed, git()]);
    assert_eq!(asked[3], RestoreAction::RemoveWorktree { path: s(PATH) });
    assert_eq!(message(restore), "temporary repository barrier canceled");
}

#[test]
fn failed_checkpoints_undo_the_worktree() {
    let (asked, restore) =
        run(fresh(None), vec![git(), git(), opened(), git_failed("bad tree"), git()]);
    assert_eq!(asked[4], RestoreAction::RemoveWorktree { path: s(PATH) });
    assert_eq!(message(restore), "failed to restore archive checkpoint: bad tree");

    let canceled = RestoreReply::Git(Outcome::Canceled);
    let (_, restore) = run(fresh(None), vec![git(), git(), opened(), canceled, git()]);
    assert_eq!(
        message(restore),
        "failed to restore archive checkpoint: restore_archive_checkpoint canceled"
    );
}

fn on_branch() -> RestoreWorktree<String> {
    run(fresh(Some("feature")), vec![git(), git(), opened()]).1
}

fn reading_back() -> RestoreAction<String> {
    RestoreAction::RestoreCheckpoint { staged: s("staged"), unstaged: s("unstaged") }
}

#[test]
fn branches_that_have_moved_are_left_again() {
    let (asked, restore) = run(on_branch(), vec![git(), head("later")]);
    assert_eq!(asked[0], RestoreAction::ChangeBranch { branch: s("feature") });
    assert_eq!(
        restore.pending(),
        RestoreAction::Detach { commit: s("original"), path: s(PATH) }
    );
    assert_eq!(restore.step(git_failed("no")).pending(), reading_back());
}

#[test]
fn unknown_heads_are_taken_as_they_are() {
    for reply in [
        RestoreReply::Head(Outcome::Done(None)),
        RestoreReply::Head(Outcome::Failed(s("x"))),
        RestoreReply::Head(Outcome::Canceled),
        head("original"),
    ] {
        let (_, restore) = run(on_branch(), vec![git(), reply]);
        assert_eq!(restore.pending(), reading_back());
    }
}

#[test]
fn branches_that_are_gone_are_created_again() {
    for reply in [git_failed("unknown branch"), RestoreReply::Git(Outcome::Canceled)] {
        let (_, restore) = run(on_branch(), vec![reply]);
        assert_eq!(restore.pending(), RestoreAction::CreateBranch { branch: s("feature") });
        assert_eq!(restore.step(git_failed("exists")).pending(), reading_back());
    }
}

/// A restore that has failed with content in the backup.
fn rolling_back() -> RestoreWorktree<String> {
    run(moved(None), vec![git(), git_failed("disk full"), git()]).1
}

#[test]
fn empty_directories_give_way_to_the_content() {
    let (asked, restore) = run(
        rolling_back(),
        vec![dir(), RestoreReply::Listing(Ok(false)), RestoreReply::Files(Err(s("busy"))), files()],
    );
    assert_eq!(asked[1], RestoreAction::ReadDirectory { path: s(PATH) });
    assert_eq!(asked[2], RestoreAction::ClearDirectory { path: s(PATH) });
    assert_eq!(asked[3], RestoreAction::MoveBack { from: s(TARGET), to: s(PATH) });
    assert_eq!(restore.pending(), RestoreAction::DropBackup { dir: s(DIR) });
}

#[test]
fn unexpected_content_keeps_the_backup() {
    for replies in [
        vec![file()],
        vec![dir(), RestoreReply::Listing(Ok(true))],
        vec![dir(), RestoreReply::Listing(Err(s("denied")))],
    ] {
        let (_, restore) = run(rolling_back(), replies);
        let alert = match restore.pending() {
            RestoreAction::Report(alert) => alert,
            other => panic!("unexpected request: {other:?}"),
        };
        assert_eq!(
            alert.message(),
            "cannot rollback: '/worktrees/project/feature/project' has unexpected content after \
             restore failure; original error: failed to create worktree: disk full; \
             user's pre-existing content remains at '/tmp/zed-restore-backup-token/worktree' \
             for manual recovery"
        );
        assert_eq!(
            message(restore.step(RestoreReply::Reported)),
            "failed to create worktree: disk full"
        );
    }
}

#[test]
fn moves_back_that_fail_are_reported() {
    let failed = RestoreReply::Files(Err(s("no space")));
    let unreadable = RestoreReply::Entry(Err(s("denied")));
    let (_, restore) = run(rolling_back(), vec![unreadable, failed]);
    let alert = Alert::MoveBackFailed {
        path: s(PATH),
        cause: s("failed to create worktree: disk full"),
        kept_at: s(TARGET),
        failure: s("no space"),
    };
    assert_eq!(
        alert.message(),
        "failed to restore backup '/tmp/zed-restore-backup-token/worktree' to \
         '/worktrees/project/feature/project' after restore error: no space; \
         original restore error: failed to create worktree: disk full; \
         user content remains at '/tmp/zed-restore-backup-token/worktree' for manual recovery"
    );
    assert_eq!(restore.pending(), RestoreAction::Report(alert));
    assert_eq!(
        message(restore.step(RestoreReply::Reported)),
        "failed to create worktree: disk full"
    );
}

#[test]
fn stale_registrations_are_reported_by_their_cause() {
    let restore = moved(None).step(git_failed("lock held")).step(file());
    let alert =
        Alert::UnexpectedContent { path: s(PATH), cause: s("lock held"), kept_at: s(TARGET) };
    assert_eq!(restore.pending(), RestoreAction::Report(alert));
}

#[test]
fn remote_restores_are_not_supported() {
    let restore =
        restore_worktree_via_git(&row(None), Some(ConnectionId(1)), OverwritePolicy::Overwrite, temp());
    assert_eq!(restore.token, "");
    assert_eq!(
        message(restore),
        "restoring archived worktrees on remote machines is not yet supported"
    );
}

#[test]
fn other_answers_do_not_move_a_restore() {
    let restore = start(None, OverwritePolicy::Overwrite).step(git()).step(RestoreReply::Reported);
    assert_eq!(restore.pending(), RestoreAction::FindAppState);
    assert_eq!(restore.finish(), None);
    assert_eq!(fresh(None).step(files()).pending(), RestoreAction::RemoveWorktree { path: s(PATH) });
}
