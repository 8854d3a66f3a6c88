//! What is found in the open workspaces, and what is not.
use vstd::prelude::*;

#[allow(unused_imports)]
use crate::model::WorkspaceId;
use crate::path::PathView;
#[allow(unused_imports)]
use crate::workspace::{
    first_live_repository, first_repository, first_worktree, shown_in, OpenWorkspace,
    RepositoryEntry, Window, WorktreeEntry,
};

verus! {

/// The workspaces of some windows and then of others are those of the first
/// ones, and behind them those of the others.
pub proof fn windows_are_collected_one_after_the_other(a: Seq<Window>, b: Seq<Window>)
    ensures
        shown_in(a + b) == shown_in(a) + shown_in(b),
    decreases b.len(),
{
    if b.len() == 0 {
        assert(a + b =~= a);
        assert(shown_in(a) + shown_in(b) =~= shown_in(a));
    } else {
        windows_are_collected_one_after_the_other(a, b.drop_last());
        assert((a + b).drop_last() =~= a + b.drop_last());
        assert((a + b).last() == b.last());
        assert(shown_in(a + b) =~= shown_in(a) + shown_in(b));
    }
}

/// A window gives all the workspaces that it shows, in their order; one that
/// cannot be read, or that shows something else, gives none.
pub proof fn windows_give_all_that_they_show(workspaces: Vec<WorkspaceId>)
    ensures
        shown_in(seq![Window::Workspaces(workspaces)]) == workspaces@,
        shown_in(seq![Window::Unreadable]) == Seq::<WorkspaceId>::empty(),
        shown_in(seq![Window::Other]) == Seq::<WorkspaceId>::empty(),
        shown_in(Seq::empty()) == Seq::<WorkspaceId>::empty(),
{
    reveal_with_fuel(shown_in, 2);
    assert(seq![Window::Workspaces(workspaces)].drop_last() =~= Seq::empty());
    assert(seq![Window::Unreadable].drop_last() =~= Seq::empty());
    assert(seq![Window::Other].drop_last() =~= Seq::empty());
    assert(shown_in(seq![Window::Workspaces(workspaces)]) =~= workspaces@);
}

/// The worktree that is found at a path is the first one whose parts are all
/// those of the path.
pub proof fn the_first_worktree_at_the_path_is_found(
    worktrees: Seq<WorktreeEntry>,
    path: PathView,
    i: int,
)
    requires
        0 <= i < worktrees.len(),
        worktrees[i].path@.parts == path.parts,
        forall|j: int| 0 <= j < i ==> (#[trigger] worktrees[j]).path@.parts != path.parts,
    ensures
        first_worktree(worktrees, path) == Some(worktrees[i].id),
    decreases worktrees.len(),
{
    if i > 0 {
        let rest = worktrees.drop_first();
        assert(worktrees[0].path@.parts != path.parts);
        assert forall|j: int| 0 <= j < i - 1 implies (#[trigger] rest[j]).path@.parts
            != path.parts by {
            assert(rest[j] == worktrees[j + 1]);
        }
        the_first_worktree_at_the_path_is_found(rest, path, i - 1);
    }
}

/// No worktree is found at a path that none of them has.
pub proof fn no_worktree_is_found_at_another_path(worktrees: Seq<WorktreeEntry>, path: PathView)
    requires
        forall|j: int|
            0 <= j < worktrees.len() ==> (#[trigger] worktrees[j]).path@.parts != path.parts,
    ensures
        first_worktree(worktrees, path) is None,
    decreases worktrees.len(),
{
    if worktrees.len() > 0 {
        let rest = worktrees.drop_first();
        assert(worktrees[0].path@.parts != path.parts);
        assert forall|j: int| 0 <= j < rest.len() implies (#[trigger] rest[j]).path@.parts
            != path.parts by {
            assert(rest[j] == worktrees[j + 1]);
        }
        no_worktree_is_found_at_another_path(rest, path);
    }
}

/// The repository that is found at a path is the first one that is checked out
/// there. Only where a linked one is asked for does it have to be linked.
pub proof fn the_first_repository_at_the_path_is_found(
    repositories: Seq<RepositoryEntry>,
    path: PathView,
    linked: bool,
    i: int,
)
    requires
        0 <= i < repositories.len(),
        repositories[i].work_directory@.parts == path.parts,
        linked ==> repositories[i].linked,
        forall|j: int|
            0 <= j < i ==> (#[trigger] repositories[j]).work_directory@.parts != path.parts || (
            linked && !repositories[j].linked),
    ensures
        first_repository(repositories, path, linked) == Some(i),
    decreases repositories.len(),
{
    if i > 0 {
        let rest = repositories.drop_first();
        assert(repositories[0].work_directory@.parts != path.parts || (linked
            && !repositories[0].linked));
        assert forall|j: int| 0 <= j < i - 1 implies (#[trigger] rest[j]).work_directory@.parts
            != path.parts || (linked && !rest[j].linked) by {
            assert(rest[j] == repositories[j + 1]);
        }
        the_first_repository_at_the_path_is_found(rest, path, linked, i - 1);
    }
}

/// No repository is found at a path where none is checked out, or none that is
/// linked where a linked one is asked for.
pub proof fn no_repository_is_found_at_another_path(
    repositories: Seq<RepositoryEntry>,
    path: PathView,
    linked: bool,
)
    requires
        forall|j: int|
            0 <= j < repositories.len() ==> (#[trigger] repositories[j]).work_directory@.parts
                != path.parts || (linked && !repositories[j].linked),
    ensures
        first_repository(repositories, path, linked) is None,
    decreases repositories.len(),
{
    if repositories.len() > 0 {
        let rest = repositories.drop_first();
        assert(repositories[0].work_directory@.parts != path.parts || (linked
            && !repositories[0].linked));
        assert forall|j: int| 0 <= j < rest.len() implies (
        #[trigger] rest[j]).work_directory@.parts != path.parts || (linked && !rest[j].linked) by {
            assert(rest[j] == repositories[j + 1]);
        }
        no_repository_is_found_at_another_path(rest, path, linked);
    }
}

/// Over all workspaces, the repository that is found is the first one at the
/// path of the first workspace that has one, among those on the machine that
/// is being asked about.
pub proof fn the_first_live_repository_at_the_path_is_found(
    workspaces: Seq<OpenWorkspace>,
    path: PathView,
    linked: bool,
    w: int,
    i: int,
)
    requires
        0 <= w < workspaces.len(),
        workspaces[w].same_connection,
        0 <= i < workspaces[w].repositories@.len(),
        workspaces[w].repositories@[i].work_directory@.parts == path.parts,
        linked ==> workspaces[w].repositories@[i].linked,
        forall|v: int, j: int|
            0 <= v <= w && workspaces[v].same_connection && 0 <= j
                < workspaces[v].repositories@.len() && (v == w ==> j < i) ==> (
            #[trigger] workspaces[v].repositories@[j]).work_directory@.parts != path.parts || (
            linked && !workspaces[v].repositories@[j].linked),
    ensures
        first_live_repository(workspaces, path, linked) == Some((w, i)),
    decreases workspaces.len(),
{
    let here = workspaces[0];
    if w == 0 {
        the_first_repository_at_the_path_is_found(here.repositories@, path, linked, i);
    } else {
        let rest = workspaces.drop_first();
        if here.same_connection {
            assert forall|j: int| 0 <= j < here.repositories@.len() implies (
            #[trigger] here.repositories@[j]).work_directory@.parts != path.parts || (linked
                && !here.repositories@[j].linked) by {
                assert(workspaces[0].repositories@[j].work_directory@.parts != path.parts || (
                linked && !workspaces[0].repositories@[j].linked));
            }
            no_repository_is_found_at_another_path(here.repositories@, path, linked);
        }
        assert forall|v: int, j: int|
            0 <= v <= w - 1 && rest[v].same_connection && 0 <= j < rest[v].repositories@.len() && (v
                == w - 1 ==> j < i) implies (
        #[trigger] rest[v].repositories@[j]).work_directory@.parts != path.parts || (linked
            && !rest[v].repositories@[j].linked) by {
            assert(rest[v] == workspaces[v + 1]);
            assert(workspaces[v + 1].repositories@[j].work_directory@.parts != path.parts || (linked
                && !workspaces[v + 1].repositories@[j].linked));
        }
        the_first_live_repository_at_the_path_is_found(rest, path, linked, w - 1, i);
    }
}

/// Over all workspaces, none is found where no workspace on the machine has a
/// repository at the path, or no linked one where that is asked for.
pub proof fn no_live_repository_is_found_at_another_path(
    workspaces: Seq<OpenWorkspace>,
    path: PathView,
    linked: bool,
)
    requires
        forall|v: int, j: int|
            0 <= v < workspaces.len() && workspaces[v].same_connection && 0 <= j
                < workspaces[v].repositories@.len() ==> (
            #[trigger] workspaces[v].repositories@[j]).work_directory@.parts != path.parts || (
            linked && !workspaces[v].repositories@[j].linked),
    ensures
        first_live_repository(workspaces, path, linked) is None,
    decreases workspaces.len(),
{
    if workspaces.len() > 0 {
        let here = workspaces[0];
        let rest = workspaces.drop_first();
        if here.same_connection {
            assert forall|j: int| 0 <= j < here.repositories@.len() implies (
            #[trigger] here.repositories@[j]).work_directory@.parts != path.parts || (linked
                && !here.repositories@[j].linked) by {
                assert(workspaces[0].repositories@[j].work_directory@.parts != path.parts || (
                linked && !workspaces[0].repositories@[j].linked));
            }
            no_repository_is_found_at_another_path(here.repositories@, path, linked);
        }
        assert forall|v: int, j: int|
            0 <= v < rest.len() && rest[v].same_connection && 0 <= j
                < rest[v].repositories@.len() implies (
        #[trigger] rest[v].repositories@[j]).work_directory@.parts != path.parts || (linked
            && !rest[v].repositories@[j].linked) by {
            assert(rest[v] == workspaces[v + 1]);
            assert(workspaces[v + 1].repositories@[j].work_directory@.parts != path.parts || (linked
                && !workspaces[v + 1].repositories@[j].linked));
        }
        no_live_repository_is_found_at_another_path(rest, path, linked);
    }
}

} // verus!
