//! What a plan holds, and when there is none.
use vstd::prelude::*;

#[allow(unused_imports)]
use crate::model::{ConnectionId, WorktreeId};
#[allow(unused_imports)]
use crate::path::PathView;
#[allow(unused_imports)]
use crate::path_laws::paths_lie_within_what_they_begin_with;
#[allow(unused_imports)]
use crate::plan::{
    affected, affected_by, archivable, linked_repository, main_repository, plan_for,
    AffectedProject,
};
#[allow(unused_imports)]
use crate::workspace::{first_worktree, OpenWorkspace};
#[allow(unused_imports)]
use crate::workspace_laws::{
    no_live_repository_is_found_at_another_path, no_worktree_is_found_at_another_path,
    the_first_live_repository_at_the_path_is_found, the_first_worktree_at_the_path_is_found,
};

verus! {

/// The projects of some workspaces and then of others are those of the first
/// ones, and behind them those of the others.
pub proof fn affected_projects_add_up(
    a: Seq<OpenWorkspace>,
    b: Seq<OpenWorkspace>,
    path: PathView,
)
    ensures
        affected(a + b, path) == affected(a, path) + affected(b, path),
    decreases b.len(),
{
    if b.len() == 0 {
        assert(a + b =~= a);
        assert(affected(a, path) + affected(b, path) =~= affected(a, path));
    } else {
        affected_projects_add_up(a, b.drop_last(), path);
        assert((a + b).drop_last() =~= a + b.drop_last());
        assert((a + b).last() == b.last());
        assert(affected(a + b, path) =~= affected(a, path) + affected(b, path));
    }
}

/// A workspace on the machine that has the worktree loaded adds its project,
/// with the id of the first worktree whose parts are all those of the path.
pub proof fn projects_with_the_worktree_are_affected(
    workspace: OpenWorkspace,
    path: PathView,
    i: int,
)
    requires
        workspace.same_connection,
        0 <= i < workspace.worktrees@.len(),
        workspace.worktrees@[i].path@.parts == path.parts,
        forall|j: int|
            0 <= j < i ==> (#[trigger] workspace.worktrees@[j]).path@.parts != path.parts,
    ensures
        affected(seq![workspace], path) == seq![
            AffectedProject {
                project: workspace.project,
                worktree_id: workspace.worktrees@[i].id,
            },
        ],
{
    the_first_worktree_at_the_path_is_found(workspace.worktrees@, path, i);
    Seq::lemma_filter_map_singleton(workspace, |w: OpenWorkspace| affected_by(w, path));
}

/// A workspace on another machine, or one without the worktree, adds nothing.
pub proof fn projects_without_the_worktree_are_not_affected(
    workspace: OpenWorkspace,
    path: PathView,
)
    requires
        !workspace.same_connection || forall|j: int|
            0 <= j < workspace.worktrees@.len() ==> (
            #[trigger] workspace.worktrees@[j]).path@.parts != path.parts,
    ensures
        affected(seq![workspace], path) == Seq::<AffectedProject>::empty(),
{
    if workspace.same_connection {
        no_worktree_is_found_at_another_path(workspace.worktrees@, path);
    }
    Seq::lemma_filter_map_singleton(workspace, |w: OpenWorkspace| affected_by(w, path));
}

/// Whether a workspace on the machine has a worktree whose parts are all those
/// of the path.
pub open spec fn is_loaded(workspaces: Seq<OpenWorkspace>, path: PathView) -> bool {
    exists|w: int, k: int|
        {
            &&& 0 <= w < workspaces.len()
            &&& workspaces[w].same_connection
            &&& 0 <= k < workspaces[w].worktrees@.len()
            &&& (#[trigger] workspaces[w].worktrees@[k]).path@.parts == path.parts
        }
}

proof fn lemma_loaded(workspaces: Seq<OpenWorkspace>, path: PathView)
    ensures
        is_loaded(workspaces, path) <==> affected(workspaces, path).len() > 0,
    decreases workspaces.len(),
{
    if workspaces.len() > 0 {
        let earlier = workspaces.drop_last();
        let last = workspaces.last();
        let n = workspaces.len() - 1;
        lemma_loaded(earlier, path);
        assert(workspaces =~= earlier + seq![last]);
        affected_projects_add_up(earlier, seq![last], path);
        if is_loaded(earlier, path) {
            let (w, k) = choose|w: int, k: int|
                {
                    &&& 0 <= w < earlier.len()
                    &&& earlier[w].same_connection
                    &&& 0 <= k < earlier[w].worktrees@.len()
                    &&& (#[trigger] earlier[w].worktrees@[k]).path@.parts == path.parts
                };
            assert(workspaces[w].worktrees@[k].path@.parts == path.parts);
        }
        if last.same_connection && exists|k: int|
            0 <= k < last.worktrees@.len() && (#[trigger] last.worktrees@[k]).path@.parts
                == path.parts {
            let k = choose|k: int|
                0 <= k < last.worktrees@.len() && (#[trigger] last.worktrees@[k]).path@.parts
                    == path.parts;
            assert(workspaces[n].worktrees@[k].path@.parts == path.parts);
            lemma_has_worktree(last, path, k);
        } else {
            projects_without_the_worktree_are_not_affected(last, path);
            if is_loaded(workspaces, path) {
                let (w, k) = choose|w: int, k: int|
                    {
                        &&& 0 <= w < workspaces.len()
                        &&& workspaces[w].same_connection
                        &&& 0 <= k < workspaces[w].worktrees@.len()
                        &&& (#[trigger] workspaces[w].worktrees@[k]).path@.parts == path.parts
                    };
                assert(w != n);
                assert(earlier[w].worktrees@[k].path@.parts == path.parts);
            }
        }
    }
}

proof fn lemma_has_worktree(workspace: OpenWorkspace, path: PathView, k: int)
    requires
        workspace.same_connection,
        0 <= k < workspace.worktrees@.len(),
        workspace.worktrees@[k].path@.parts == path.parts,
    ensures
        affected(seq![workspace], path).len() == 1,
    decreases k,
{
    if exists|j: int|
        0 <= j < k && (#[trigger] workspace.worktrees@[j]).path@.parts == path.parts {
        let j = choose|j: int|
            0 <= j < k && (#[trigger] workspace.worktrees@[j]).path@.parts == path.parts;
        lemma_has_worktree(workspace, path, j);
    } else {
        projects_with_the_worktree_are_affected(workspace, path, k);
    }
}

/// A worktree that is loaded, and that some repository on the machine is as a
/// linked worktree, can be archived just when the first such repository knows
/// its main worktree and the path begins with all parts of the managed
/// directory. The plan then holds the path itself, and the id, the branch and
/// the main worktree of that very repository.
pub proof fn plans_hold_what_stands_at_the_path(
    workspaces: Seq<OpenWorkspace>,
    path: PathView,
    remote_connection: Option<ConnectionId>,
    base: PathView,
    w: int,
    i: int,
)
    requires
        is_loaded(workspaces, path),
        0 <= w < workspaces.len(),
        workspaces[w].same_connection,
        0 <= i < workspaces[w].repositories@.len(),
        workspaces[w].repositories@[i].work_directory@.parts == path.parts,
        workspaces[w].repositories@[i].linked,
        forall|v: int, j: int|
            0 <= v <= w && workspaces[v].same_connection && 0 <= j
                < workspaces[v].repositories@.len() && (v == w ==> j < i) ==> (
            #[trigger] workspaces[v].repositories@[j]).work_directory@.parts != path.parts
                || !workspaces[v].repositories@[j].linked,
    ensures
        ({
            let repository = workspaces[w].repositories@[i];
            let plan = plan_for(workspaces, path, remote_connection);
            &&& !archivable(workspaces, path, None)
            &&& repository.main_worktree is None ==> main_repository(workspaces, path) is None
                && !archivable(workspaces, path, Some(base))
            &&& repository.main_worktree matches Some(main) ==> {
                &&& main_repository(workspaces, path) == Some(main@)
                &&& archivable(workspaces, path, Some(base)) <==> base.parts.len()
                    <= path.parts.len() && forall|k: int|
                    0 <= k < base.parts.len() ==> #[trigger] base.parts[k] == path.parts[k]
                &&& plan.main_repo_path == main@
                &&& plan.root_path == path
                &&& plan.affected_projects == affected(workspaces, path)
                &&& plan.worktree_repo == repository.id
                &&& plan.branch_name == (match repository.branch_name {
                    Some(branch) => Some(branch@),
                    None => None,
                })
                &&& plan.remote_connection == remote_connection
            }
        }),
{
    lemma_loaded(workspaces, path);
    the_first_live_repository_at_the_path_is_found(workspaces, path, true, w, i);
    paths_lie_within_what_they_begin_with(path, base);
}

/// There is no plan for a path that no project on the machine has loaded.
pub proof fn paths_that_are_not_loaded_are_not_archivable(
    workspaces: Seq<OpenWorkspace>,
    path: PathView,
    base: Option<PathView>,
)
    requires
        !is_loaded(workspaces, path),
    ensures
        main_repository(workspaces, path) is None,
        !archivable(workspaces, path, base),
{
    lemma_loaded(workspaces, path);
}

/// There is no plan for a path at which no project on the machine has a linked
/// worktree open.
pub proof fn paths_without_a_linked_worktree_are_not_archivable(
    workspaces: Seq<OpenWorkspace>,
    path: PathView,
    base: Option<PathView>,
)
    requires
        forall|v: int, j: int|
            0 <= v < workspaces.len() && workspaces[v].same_connection && 0 <= j
                < workspaces[v].repositories@.len() ==> (
            #[trigger] workspaces[v].repositories@[j]).work_directory@.parts != path.parts
                || !workspaces[v].repositories@[j].linked,
    ensures
        main_repository(workspaces, path) is None,
        !archivable(workspaces, path, base),
{
    no_live_repository_is_found_at_another_path(workspaces, path, true);
}

} // verus!
