//! The open workspaces, and what is looked up in them.
use vstd::prelude::*;

use crate::model::{ProjectId, RepositoryId, WorkspaceId, WorktreeId};
use crate::path::DiskPath;
#[allow(unused_imports)]
use crate::path::PathView;

verus! {

/// A window of the application.
#[derive(Debug, PartialEq, Eq)]
pub enum Window {
    /// A window that shows workspaces, with those that it shows.
    Workspaces(Vec<WorkspaceId>),
    /// A window that shows workspaces, but could not be read.
    Unreadable,
    /// A window that shows something else.
    Other,
}

impl Window {
    /// The workspaces that the window is known to show.
    pub open spec fn shown(self) -> Seq<WorkspaceId> {
        match self {
            Window::Workspaces(workspaces) => workspaces@,
            _ => Seq::empty(),
        }
    }
}

/// The workspaces of all windows, one window after the other.
pub open spec fn shown_in(windows: Seq<Window>) -> Seq<WorkspaceId>
    decreases windows.len(),
{
    if windows.len() == 0 {
        Seq::empty()
    } else {
        shown_in(windows.drop_last()) + windows.last().shown()
    }
}

/// Collects every workspace across all open windows.
pub fn all_open_workspaces(windows: &Vec<Window>) -> (r: Vec<WorkspaceId>)
    ensures
        r@ == shown_in(windows@),
{
    let mut r: Vec<WorkspaceId> = Vec::new();
    let mut i: usize = 0;
    while i < windows.len()
        invariant
            i <= windows@.len(),
            r@ == shown_in(windows@.take(i as int)),
        decreases windows@.len() - i,
    {
        let ghost before = r@;
        match &windows[i] {
            Window::Workspaces(workspaces) => {
                let mut k: usize = 0;
                while k < workspaces.len()
                    invariant
                        k <= workspaces@.len(),
                        r@ == before + workspaces@.take(k as int),
                    decreases workspaces@.len() - k,
                {
                    r.push(workspaces[k]);
                    assert(r@ =~= before + workspaces@.take(k + 1));
                    k += 1;
                }
                assert(workspaces@.take(k as int) =~= workspaces@);
            },
            _ => {
                assert(r@ =~= before + Seq::<WorkspaceId>::empty());
            },
        }
        assert(windows@.take(i + 1).drop_last() =~= windows@.take(i as int));
        i += 1;
    }
    assert(windows@.take(i as int) =~= windows@);
    r
}

/// Finds the workspace whose application state is used: the first open one.
pub fn current_app_state(windows: &Vec<Window>) -> (r: Option<WorkspaceId>)
    ensures
        r == (if shown_in(windows@).len() == 0 {
            None::<WorkspaceId>
        } else {
            Some(shown_in(windows@)[0])
        }),
{
    let open = all_open_workspaces(windows);
    if open.len() == 0 {
        None
    } else {
        Some(open[0])
    }
}

/// A worktree that is visible in a project.
#[derive(Debug)]
pub struct WorktreeEntry {
    pub id: WorktreeId,
    pub path: DiskPath,
}

/// A repository that a project has open.
#[derive(Debug)]
pub struct RepositoryEntry {
    pub id: RepositoryId,
    /// Where its files are checked out.
    pub work_directory: DiskPath,
    /// Whether it is a worktree linked to another repository.
    pub linked: bool,
    /// Where the repository that it is linked to is checked out.
    pub main_worktree: Option<DiskPath>,
    /// The branch that is checked out, unless HEAD is detached.
    pub branch_name: Option<String>,
}

/// An open workspace, with what its project has loaded.
#[derive(Debug)]
pub struct OpenWorkspace {
    pub project: ProjectId,
    /// Whether the project is on the machine that is being asked about.
    pub same_connection: bool,
    pub worktrees: Vec<WorktreeEntry>,
    pub repositories: Vec<RepositoryEntry>,
}

/// The first worktree at `path`.
pub open spec fn first_worktree(worktrees: Seq<WorktreeEntry>, path: PathView) -> Option<WorktreeId>
    decreases worktrees.len(),
{
    if worktrees.len() == 0 {
        None
    } else if worktrees[0].path@.same_as(path) {
        Some(worktrees[0].id)
    } else {
        first_worktree(worktrees.drop_first(), path)
    }
}

/// Finds the first worktree at `path`.
pub fn find_worktree(worktrees: &Vec<WorktreeEntry>, path: &DiskPath) -> (r: Option<WorktreeId>)
    ensures
        r == first_worktree(worktrees@, path@),
{
    let mut i: usize = 0;
    assert(worktrees@.skip(0) =~= worktrees@);
    while i < worktrees.len()
        invariant
            i <= worktrees@.len(),
            first_worktree(worktrees@, path@) == first_worktree(worktrees@.skip(i as int), path@),
        decreases worktrees@.len() - i,
    {
        if worktrees[i].path.is_same(path) {
            return Some(worktrees[i].id);
        }
        assert(worktrees@.skip(i as int).drop_first() =~= worktrees@.skip(i + 1));
        i += 1;
    }
    None
}

/// Whether a repository is what is looked for: checked out at `path`, and,
/// if `linked` is wanted, linked to another one.
pub open spec fn is_wanted(repository: RepositoryEntry, path: PathView, linked: bool) -> bool {
    repository.work_directory@.same_as(path) && (linked ==> repository.linked)
}

/// The index of the first wanted repository.
pub open spec fn first_repository(
    repositories: Seq<RepositoryEntry>,
    path: PathView,
    linked: bool,
) -> Option<int>
    decreases repositories.len(),
{
    if repositories.len() == 0 {
        None
    } else if is_wanted(repositories[0], path, linked) {
        Some(0)
    } else {
        match first_repository(repositories.drop_first(), path, linked) {
            Some(i) => Some(i + 1),
            None => None,
        }
    }
}

/// Finds the index of the first wanted repository.
pub fn find_repository(repositories: &Vec<RepositoryEntry>, path: &DiskPath, linked: bool) -> (r:
    Option<usize>)
    ensures
        match r {
            Some(i) => i < repositories@.len() && first_repository(repositories@, path@, linked)
                == Some(i as int) && is_wanted(repositories@[i as int], path@, linked),
            None => first_repository(repositories@, path@, linked) is None,
        },
{
    let mut i: usize = 0;
    assert(repositories@.skip(0) =~= repositories@);
    while i < repositories.len()
        invariant
            i <= repositories@.len(),
            match first_repository(repositories@.skip(i as int), path@, linked) {
                Some(k) => first_repository(repositories@, path@, linked) == Some(i + k),
                None => first_repository(repositories@, path@, linked) is None,
            },
        decreases repositories@.len() - i,
    {
        if (!linked || repositories[i].linked) && repositories[i].work_directory.is_same(path) {
            return Some(i);
        }
        assert(repositories@.skip(i as int).drop_first() =~= repositories@.skip(i + 1));
        i += 1;
    }
    None
}

/// The first wanted repository of the workspaces on the machine that is being
/// asked about: the index of its workspace, and its index there.
pub open spec fn first_live_repository(
    workspaces: Seq<OpenWorkspace>,
    path: PathView,
    linked: bool,
) -> Option<(int, int)>
    decreases workspaces.len(),
{
    if workspaces.len() == 0 {
        None
    } else if workspaces[0].same_connection && first_repository(
        workspaces[0].repositories@,
        path,
        linked,
    ) is Some {
        Some((0, first_repository(workspaces[0].repositories@, path, linked)->0))
    } else {
        match first_live_repository(workspaces.drop_first(), path, linked) {
            Some((w, i)) => Some((w + 1, i)),
            None => None,
        }
    }
}

/// Finds the first wanted repository of the workspaces on the machine that is
/// being asked about.
pub fn find_live_repository(workspaces: &Vec<OpenWorkspace>, path: &DiskPath, linked: bool) -> (r:
    Option<(usize, usize)>)
    ensures
        match r {
            Some((w, i)) => {
                &&& first_live_repository(workspaces@, path@, linked) == Some((w as int, i as int))
                &&& w < workspaces@.len()
                &&& i < workspaces@[w as int].repositories@.len()
                &&& workspaces@[w as int].same_connection
                &&& is_wanted(workspaces@[w as int].repositories@[i as int], path@, linked)
            },
            None => first_live_repository(workspaces@, path@, linked) is None,
        },
{
    let mut w: usize = 0;
    assert(workspaces@.skip(0) =~= workspaces@);
    while w < workspaces.len()
        invariant
            w <= workspaces@.len(),
            match first_live_repository(workspaces@.skip(w as int), path@, linked) {
                Some((v, i)) => first_live_repository(workspaces@, path@, linked) == Some(
                    (w + v, i),
                ),
                None => first_live_repository(workspaces@, path@, linked) is None,
            },
        decreases workspaces@.len() - w,
    {
        if workspaces[w].same_connection {
            match find_repository(&workspaces[w].repositories, path, linked) {
                Some(i) => {
                    return Some((w, i));
                },
                None => {},
            }
        }
        assert(workspaces@.skip(w as int).drop_first() =~= workspaces@.skip(w + 1));
        w += 1;
    }
    None
}

proof fn lemma_repository_is_wanted(
    repositories: Seq<RepositoryEntry>,
    path: PathView,
    linked: bool,
)
    ensures
        first_repository(repositories, path, linked) matches Some(i) ==> 0 <= i
            < repositories.len() && is_wanted(repositories[i], path, linked),
    decreases repositories.len(),
{
    if repositories.len() > 0 {
        lemma_repository_is_wanted(repositories.drop_first(), path, linked);
    }
}

/// The first wanted repository is a wanted one, on the machine that is being
/// asked about.
pub(crate) proof fn lemma_live_repository_is_wanted(
    workspaces: Seq<OpenWorkspace>,
    path: PathView,
    linked: bool,
)
    ensures
        first_live_repository(workspaces, path, linked) matches Some((w, i)) ==> {
            &&& 0 <= w < workspaces.len()
            &&& 0 <= i < workspaces[w].repositories@.len()
            &&& workspaces[w].same_connection
            &&& is_wanted(workspaces[w].repositories@[i], path, linked)
        },
    decreases workspaces.len(),
{
    if workspaces.len() > 0 {
        lemma_repository_is_wanted(workspaces[0].repositories@, path, linked);
        lemma_live_repository_is_wanted(workspaces.drop_first(), path, linked);
    }
}

} // verus!
