//! Ref names, paths, phrases and workspaces.
use worktree_archive::backup::{place_backup, Separator, TempDir};
use worktree_archive::model::WorkspaceId;
use worktree_archive::path::DiskPath;
use worktree_archive::restore::reports_unregistered;
use worktree_archive::text::{archived_worktree_ref_name, decimal_text, mentions};
use worktree_archive::workspace::{all_open_workspaces, current_app_state, Window};

fn path(text: &str) -> DiskPath {
    DiskPath::new(text.to_string())
}

#[test]
fn ref_names_end_in_the_id() {
    assert_eq!(archived_worktree_ref_name(42), "refs/archived-worktrees/42");
    assert_eq!(archived_worktree_ref_name(0), "refs/archived-worktrees/0");
    assert_eq!(archived_worktree_ref_name(-7), "refs/archived-worktrees/-7");
    assert_ne!(archived_worktree_ref_name(1), archived_worktree_ref_name(11));
    assert_ne!(archived_worktree_ref_name(7), archived_worktree_ref_name(-7));
}

#[test]
fn decimals_are_written_as_the_formatter_writes_them() {
    for n in [0, 9, 10, 99, 100, 1234567890, -1, -10, i64::MAX, i64::MIN] {
        assert_eq!(decimal_text(n), format!("{n}"));
    }
    assert_eq!(decimal_text(i64::MIN), "-9223372036854775808");
}

#[test]
fn phrases_are_found_anywhere() {
    assert!(mentions("fatal: '/wt' is not a working tree", "not a working tree"));
    assert!(mentions("abc", "abc"));
    assert!(mentions("aab", "ab"));
    assert!(mentions("", ""));
    assert!(mentions("x", ""));
    assert!(!mentions("ab", "abc"));
    assert!(!mentions("a b", "ab"));
    assert!(mentions("größe no worktree", "no worktree"));
}

#[test]
fn missing_registrations_are_recognised() {
    assert!(reports_unregistered("git: fatal: '/wt' is not a working tree"));
    assert!(reports_unregistered("no worktree at '/wt'"));
    assert!(!reports_unregistered("permission denied"));
    assert!(!reports_unregistered("Not A Working Tree"));
}

#[test]
fn paths_are_compared_by_their_parts() {
    assert!(path("/a/b").is_same(&path("/a/b/")));
    assert!(path("/a/b").is_same(&path("/a//b")));
    assert!(path("/a/b").is_same(&path("/a/./b")));
    assert!(!path("/a/b").is_same(&path("a/b")));
    assert!(!path("./a").is_same(&path("a")));
    assert!(path("./a/.").is_same(&path("./a")));
    // A `..` is kept as it is.
    assert!(!path("/a/../b").is_same(&path("/b")));
    assert!(!path("/a/B").is_same(&path("/a/b")));
    // A colon after a leading slash is part of a name.
    assert!(path("/home/a:b").is_same(&path("/home/./a:b/")));
    assert!(!path("/home/a:b").is_same(&path("/home/a/b")));
    assert!(path("/home/a:b/c").is_within(&path("/home/a:b")));
    assert!(!path("/home/a:b").is_within(&path("/home/a")));
    assert_eq!(path("/a//b/").text(), "/a//b/");
}

#[test]
fn paths_lie_within_their_directories() {
    assert!(path("/worktrees/project/x").is_within(&path("/worktrees/project")));
    assert!(path("/worktrees/project").is_within(&path("/worktrees/project/")));
    assert!(path("/worktrees/project").is_within(&path("/")));
    assert!(!path("/worktrees").is_within(&path("/worktrees/project")));
    assert!(!path("/worktrees/project2/x").is_within(&path("/worktrees/project")));
    assert!(!path("/worktrees/project/../../x").is_same(&path("/x")));
    let base = path("/w/p");
    let copy = base.duplicate();
    assert!(copy.is_same(&base));
    assert_eq!(copy.text(), "/w/p");
}

#[test]
fn comparison_of_paths_is_that_of_the_platform() {
    let texts = ["", ".", "/", "a", "a/", "/a", "./a", "a/./b", "a//b", "a/b", "..", "../a", "/.", "a/..", "/a:b", "/a:b/", "/x/../a:b", "//a", "//", "a\\b", "\\a/b", "c:", "c:/a", "c:a", "c:\\a", "\\\\s\\t\\a"];
    for x in texts {
        for y in texts {
            let (p, q) = (std::path::Path::new(x), std::path::Path::new(y));
            assert_eq!(path(x).is_same(&path(y)), p == q, "{x:?} and {y:?}");
            assert_eq!(path(x).is_within(&path(y)), p.starts_with(q), "{x:?} in {y:?}");
        }
    }
}

#[test]
fn backups_have_a_directory_of_their_own() {
    let temp = TempDir { path: "/tmp".to_string(), separator: Separator::Slash };
    let backup = place_backup(&temp, "1234");
    assert_eq!(backup.dir, "/tmp/zed-restore-backup-1234");
    assert_eq!(backup.target, "/tmp/zed-restore-backup-1234/worktree");

    let temp = TempDir { path: "/tmp/".to_string(), separator: Separator::Slash };
    assert_eq!(place_backup(&temp, "1234").dir, "/tmp/zed-restore-backup-1234");

    let temp = TempDir { path: "C:\\Temp\\".to_string(), separator: Separator::Backslash };
    let backup = place_backup(&temp, "1");
    assert_eq!(backup.dir, "C:\\Temp\\zed-restore-backup-1");
    assert_eq!(backup.target, "C:\\Temp\\zed-restore-backup-1\\worktree");

    let temp = TempDir { path: "C:\\Temp".to_string(), separator: Separator::Backslash };
    assert_eq!(place_backup(&temp, "1").dir, "C:\\Temp\\zed-restore-backup-1");

    let temp = TempDir { path: "".to_string(), separator: Separator::Slash };
    assert_eq!(place_backup(&temp, "1").dir, "zed-restore-backup-1");
}

#[test]
fn workspaces_of_all_windows_are_collected_in_order() {
    let windows = vec![
        Window::Other,
        Window::Workspaces(vec![WorkspaceId(3), WorkspaceId(1)]),
        Window::Unreadable,
        Window::Workspaces(vec![]),
        Window::Workspaces(vec![WorkspaceId(2)]),
    ];
    assert_eq!(all_open_workspaces(&windows), vec![WorkspaceId(3), WorkspaceId(1), WorkspaceId(2)]);
    assert_eq!(current_app_state(&windows), Some(WorkspaceId(3)));
    assert_eq!(current_app_state(&vec![Window::Other, Window::Unreadable]), None);
    assert!(all_open_workspaces(&Vec::new()).is_empty());
}
