//! Whether a restore would destroy anything.
use std::collections::BTreeMap;

use worktree_archive::content::{
    content_of_entry, restore_would_overwrite, worktree_path_has_content, ContentAction,
    ContentCheck, ContentReply,
};
use worktree_archive::error::ArchiveError;
use worktree_archive::model::{ArchivedGitWorktree, ConnectionId, EntryKind};

#[derive(Clone, Copy, PartialEq)]
enum Node {
    Dir,
    File,
    Link,
}

/// A file system in memory, by absolute path.
struct Files(BTreeMap<String, Node>);

impl Files {
    fn new() -> Files {
        Files(BTreeMap::new())
    }

    fn with(mut self, path: &str, node: Node) -> Files {
        self.0.insert(path.to_string(), node);
        self
    }

    fn metadata(&self, path: &str) -> Option<EntryKind> {
        self.0.get(path).map(|node| EntryKind {
            is_dir: *node == Node::Dir,
            is_symlink: *node == Node::Link,
        })
    }

    fn is_occupied(&self, path: &str) -> bool {
        let prefix = format!("{path}/");
        self.0.keys().any(|key| key.starts_with(&prefix))
    }

    fn check(&self, mut check: ContentCheck<String>) -> Result<bool, ArchiveError<String>> {
        for _ in 0..10 {
            let reply = match check.pending() {
                ContentAction::FindAppState => ContentReply::AppState(true),
                ContentAction::ReadEntry { path } => ContentReply::Entry(Ok(self.metadata(&path))),
                ContentAction::ReadDirectory { path } => {
                    ContentReply::Listing(Ok(self.is_occupied(&path)))
                }
                ContentAction::Finish => return check.finish().unwrap(),
            };
            check = check.step(reply);
        }
        panic!("the check did not end");
    }
}

fn row(path: &str) -> ArchivedGitWorktree<String> {
    ArchivedGitWorktree {
        id: 1,
        worktree_path: path.to_string(),
        main_repo_path: "/project".to_string(),
        branch_name: None,
        staged_commit_hash: "s".to_string(),
        unstaged_commit_hash: "u".to_string(),
        original_commit_hash: "o".to_string(),
    }
}

/// The worktree directory exists with leftover content, but git has no
/// registration for it.
#[test]
fn test_has_content_leftover_dir_no_registration() {
    let files = Files::new()
        .with("/wt-orphaned", Node::Dir)
        .with("/wt-orphaned/leftover.txt", Node::File);

    let has_content = files.check(worktree_path_has_content("/wt-orphaned".to_string()));

    assert_eq!(
        has_content.unwrap(),
        true,
        "orphaned dir from a partial Windows archive must report content"
    );
    assert!(
        files.0.get("/wt-orphaned/leftover.txt") == Some(&Node::File),
        "the check must not touch any files"
    );
}

/// The worktree directory exists with content but its `.git` file is missing.
#[test]
fn test_has_content_dir_with_broken_dot_git() {
    let files = Files::new()
        .with("/wt-broken", Node::Dir)
        .with("/wt-broken/src", Node::Dir)
        .with("/wt-broken/src/lib.rs", Node::File);

    let has_content = files.check(worktree_path_has_content("/wt-broken".to_string()));

    assert_eq!(
        has_content.unwrap(),
        true,
        "a directory with broken git linkage but real files must report content"
    );
}

/// The worktree directory is fully valid. Even so, the restore would overwrite
/// uncommitted work.
#[test]
fn test_has_content_fully_valid_worktree() {
    let files = Files::new()
        .with("/wt-valid", Node::Dir)
        .with("/wt-valid/.git", Node::File)
        .with("/wt-valid/src", Node::Dir)
        .with("/wt-valid/src/lib.rs", Node::File);

    let has_content = files.check(worktree_path_has_content("/wt-valid".to_string()));

    assert_eq!(
        has_content.unwrap(),
        true,
        "a valid worktree with uncommitted work must report content \
         (read-tree --reset -u would clobber it)"
    );
}

/// Nothing exists at the worktree path.
#[test]
fn test_has_content_when_path_missing() {
    let files = Files::new();
    assert!(
        files.metadata("/wt-missing").is_none(),
        "precondition: worktree path must not exist"
    );

    let has_content = files.check(worktree_path_has_content("/wt-missing".to_string()));

    assert_eq!(has_content.unwrap(), false, "missing dir must not report content");
}

/// An empty directory at the worktree path has no content to lose.
#[test]
fn test_has_content_for_empty_dir() {
    let files = Files::new().with("/wt-empty", Node::Dir);
    assert!(
        files.metadata("/wt-empty").unwrap().is_dir,
        "precondition: empty dir must exist"
    );

    let has_content = files.check(worktree_path_has_content("/wt-empty".to_string()));

    assert_eq!(has_content.unwrap(), false, "empty dir must not report content");
}

#[test]
fn files_and_links_are_content() {
    let files = Files::new().with("/file", Node::File).with("/link", Node::Link);
    assert_eq!(files.check(worktree_path_has_content("/file".to_string())), Ok(true));
    assert_eq!(files.check(worktree_path_has_content("/link".to_string())), Ok(true));
    let link_to_dir = EntryKind { is_dir: true, is_symlink: true };
    assert_eq!(content_of_entry(Some(link_to_dir)), Some(true));
    let dir = EntryKind { is_dir: true, is_symlink: false };
    assert_eq!(content_of_entry(Some(dir)), None);
    assert_eq!(content_of_entry(None), Some(false));
}

#[test]
fn failures_to_look_are_passed_on() {
    let check = worktree_path_has_content("/wt".to_string());
    let failed = check.step(ContentReply::Entry(Err("io: denied".to_string())));
    assert_eq!(failed.pending(), ContentAction::Finish);
    assert_eq!(failed.finish(), Some(Err(ArchiveError::Host("io: denied".to_string()))));

    let dir = EntryKind { is_dir: true, is_symlink: false };
    let check = worktree_path_has_content("/wt".to_string()).step(ContentReply::Entry(Ok(Some(dir))));
    assert_eq!(check.pending(), ContentAction::ReadDirectory { path: "/wt".to_string() });
    let failed = check.step(ContentReply::Listing(Err("gone".to_string())));
    assert_eq!(failed.finish(), Some(Err(ArchiveError::Host("gone".to_string()))));
}

#[test]
fn other_answers_do_not_move_a_check() {
    let check = worktree_path_has_content("/wt".to_string()).step(ContentReply::Listing(Ok(true)));
    assert_eq!(check.pending(), ContentAction::ReadEntry { path: "/wt".to_string() });
    assert_eq!(check.finish(), None);
}

#[test]
fn preflight_asks_for_the_app_state_first() {
    let files = Files::new().with("/wt", Node::Dir).with("/wt/a", Node::File);
    let check = restore_would_overwrite(&row("/wt"), None);
    assert_eq!(check.pending(), ContentAction::FindAppState);
    assert_eq!(files.check(check), Ok(true));

    let check = restore_would_overwrite(&row("/wt"), None).step(ContentReply::AppState(false));
    assert_eq!(check.finish(), Some(Err(ArchiveError::NoAppState)));
}

#[test]
fn preflight_on_a_remote_machine_is_not_supported() {
    let check = restore_would_overwrite(&row("/wt"), Some(ConnectionId(1)));
    assert_eq!(check.pending(), ContentAction::Finish);
    let error = check.finish().unwrap().unwrap_err();
    assert_eq!(error, ArchiveError::RemoteRestoreUnsupported);
    assert_eq!(
        error.message(),
        "restoring archived worktrees on remote machines is not yet supported"
    );
}
