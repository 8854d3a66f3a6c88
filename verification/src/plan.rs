//! The plan for archiving one worktree.
use vstd::prelude::*;

use crate::model::{ConnectionId, ProjectId, RepositoryId, WorktreeId};
#[allow(unused_imports)]
use crate::model::optional_text;
use crate::path::DiskPath;
#[allow(unused_imports)]
use crate::path::PathView;
use crate::workspace::{find_live_repository, find_worktree, OpenWorkspace};
#[allow(unused_imports)]
use crate::workspace::{
    first_live_repository, first_worktree, lemma_live_repository_is_wanted, RepositoryEntry,
};

verus! {

/// A project that has loaded the worktree being archived, paired with the id
/// it uses for that worktree.
///
/// The same worktree path can be open in several workspaces. Each project has
/// to release it, otherwise the directory would still be held and
/// `git worktree remove` would fail.
#[derive(Clone, Copy, Debug, PartialEq, Eq, Structural)]
pub struct AffectedProject {
    pub project: ProjectId,
    pub worktree_id: WorktreeId,
}

/// The plan for archiving a single git worktree root.
///
/// It is made while the worktree is still loaded in open projects, since the
/// removal of a workspace tears its project and repositories down.
#[derive(Clone, Debug)]
pub struct RootPlan {
    /// The git worktree on disk.
    pub root_path: DiskPath,
    /// The main git repository that the worktree is linked to.
    pub main_repo_path: DiskPath,
    /// Every open project that has the worktree loaded.
    pub affected_projects: Vec<AffectedProject>,
    /// The repository of the worktree itself.
    pub worktree_repo: RepositoryId,
    /// The branch the worktree was on. `None` if HEAD was detached.
    pub branch_name: Option<String>,
    /// The remote machine that the worktree is on, if it is on one.
    pub remote_connection: Option<ConnectionId>,
}

/// What contracts say of a [`RootPlan`].
pub struct PlanView {
    pub root_path: PathView,
    pub main_repo_path: PathView,
    pub affected_projects: Seq<AffectedProject>,
    pub worktree_repo: RepositoryId,
    pub branch_name: Option<Seq<char>>,
    pub remote_connection: Option<ConnectionId>,
}

impl View for RootPlan {
    type V = PlanView;

    open spec fn view(&self) -> PlanView {
        PlanView {
            root_path: self.root_path@,
            main_repo_path: self.main_repo_path@,
            affected_projects: self.affected_projects@,
            worktree_repo: self.worktree_repo,
            branch_name: optional_text(self.branch_name),
            remote_connection: self.remote_connection,
        }
    }
}

impl RootPlan {
    /// The same plan once more.
    pub fn duplicate(&self) -> (r: RootPlan)
        ensures
            r@ == self@,
    {
        let affected_projects = self.affected_projects.clone();
        assert(affected_projects@ =~= self.affected_projects@);
        RootPlan {
            root_path: self.root_path.duplicate(),
            main_repo_path: self.main_repo_path.duplicate(),
            affected_projects,
            worktree_repo: self.worktree_repo,
            branch_name: self.branch_name.clone(),
            remote_connection: self.remote_connection,
        }
    }
}

/// How a workspace is affected when the worktree at `path` goes away.
pub open spec fn affected_by(workspace: OpenWorkspace, path: PathView) -> Option<AffectedProject> {
    match first_worktree(workspace.worktrees@, path) {
        Some(worktree_id) => if workspace.same_connection {
            Some(AffectedProject { project: workspace.project, worktree_id })
        } else {
            None
        },
        None => None,
    }
}

/// The projects on the machine in question that have the worktree at `path`
/// loaded, in the order of their workspaces.
pub open spec fn affected(workspaces: Seq<OpenWorkspace>, path: PathView) -> Seq<AffectedProject> {
    workspaces.filter_map(|workspace: OpenWorkspace| affected_by(workspace, path))
}

/// The open repository that is the linked worktree at `path`.
pub open spec fn linked_repository(
    workspaces: Seq<OpenWorkspace>,
    path: PathView,
) -> Option<RepositoryEntry> {
    match first_live_repository(workspaces, path, true) {
        Some((w, i)) => Some(workspaces[w].repositories@[i]),
        None => None,
    }
}

/// Where the main repository of the worktree at `path` is checked out, if
/// some project has the worktree loaded and it is a linked one.
pub open spec fn main_repository(workspaces: Seq<OpenWorkspace>, path: PathView) -> Option<
    PathView,
> {
    if affected(workspaces, path).len() == 0 {
        None
    } else {
        match linked_repository(workspaces, path) {
            Some(repository) => match repository.main_worktree {
                Some(main) => Some(main@),
                None => None,
            },
            None => None,
        }
    }
}

/// Whether the worktree at `path` can be archived: it has a main repository,
/// and lies in the directory in which worktrees of that are managed.
pub open spec fn archivable(
    workspaces: Seq<OpenWorkspace>,
    path: PathView,
    worktrees_base: Option<PathView>,
) -> bool {
    &&& main_repository(workspaces, path) is Some
    &&& worktrees_base matches Some(base)
    &&& path.within(base)
}

/// The plan for the archivable worktree at `path`.
pub open spec fn plan_for(
    workspaces: Seq<OpenWorkspace>,
    path: PathView,
    remote_connection: Option<ConnectionId>,
) -> PlanView {
    let repository = linked_repository(workspaces, path)->0;
    PlanView {
        root_path: path,
        main_repo_path: main_repository(workspaces, path)->0,
        affected_projects: affected(workspaces, path),
        worktree_repo: repository.id,
        branch_name: optional_text(repository.branch_name),
        remote_connection,
    }
}

/// Finds every project that has the worktree at `path` loaded.
fn find_affected(workspaces: &Vec<OpenWorkspace>, path: &DiskPath) -> (r: Vec<AffectedProject>)
    ensures
        r@ == affected(workspaces@, path@),
{
    let ghost effect = |workspace: OpenWorkspace| affected_by(workspace, path@);
    let mut r: Vec<AffectedProject> = Vec::new();
    let mut w: usize = 0;
    assert(workspaces@.take(0) =~= Seq::empty());
    while w < workspaces.len()
        invariant
            effect == (|workspace: OpenWorkspace| affected_by(workspace, path@)),
            w <= workspaces@.len(),
            r@ == workspaces@.take(w as int).filter_map(effect),
        decreases workspaces@.len() - w,
    {
        proof {
            workspaces@.lemma_filter_map_take_succ(effect, w as int);
        }
        if workspaces[w].same_connection {
            match find_worktree(&workspaces[w].worktrees, path) {
                Some(worktree_id) => {
                    r.push(AffectedProject { project: workspaces[w].project, worktree_id });
                },
                None => {},
            }
        }
        w += 1;
    }
    assert(workspaces@.take(w as int) =~= workspaces@);
    r
}

/// Finds the main repository of the worktree at `path`, for which the managed
/// worktrees directory has to be resolved before a plan can be made.
pub fn find_main_repository(path: &DiskPath, workspaces: &Vec<OpenWorkspace>) -> (r: Option<
    DiskPath,
>)
    ensures
        match r {
            Some(main) => main_repository(workspaces@, path@) == Some(main@),
            None => main_repository(workspaces@, path@) is None,
        },
{
    let affected_projects = find_affected(workspaces, path);
    if affected_projects.len() == 0 {
        return None;
    }
    match find_live_repository(workspaces, path, true) {
        Some((w, i)) => match &workspaces[w].repositories[i].main_worktree {
            Some(main) => Some(main.duplicate()),
            None => None,
        },
        None => None,
    }
}

/// Builds a [`RootPlan`] for archiving the git worktree at `path`.
///
/// `workspaces` are the open workspaces, and `worktrees_base` is the directory
/// in which worktrees of the main repository are managed, if that could be
/// resolved. There is no plan if no open project has the path loaded, if it is
/// not a linked worktree (main worktrees cannot be archived to disk), or if it
/// lies outside the managed directory: worktrees that the user created
/// elsewhere are left untouched.
pub fn build_root_plan(
    path: &DiskPath,
    remote_connection: Option<ConnectionId>,
    workspaces: &Vec<OpenWorkspace>,
    worktrees_base: Option<&DiskPath>,
) -> (r: Option<RootPlan>)
    ensures
        r is Some <==> archivable(
            workspaces@,
            path@,
            match worktrees_base {
                Some(base) => Some(base@),
                None => None,
            },
        ),
        r matches Some(plan) ==> plan@ == plan_for(workspaces@, path@, remote_connection),
{
    let affected_projects = find_affected(workspaces, path);
    if affected_projects.len() == 0 {
        return None;
    }
    let (w, i) = match find_live_repository(workspaces, path, true) {
        Some(found) => found,
        None => {
            return None;
        },
    };
    let repository = &workspaces[w].repositories[i];
    let main_repo_path = match &repository.main_worktree {
        Some(main) => main.duplicate(),
        None => {
            return None;
        },
    };
    let base = match worktrees_base {
        Some(base) => base,
        None => {
            return None;
        },
    };
    if !path.is_within(base) {
        return None;
    }
    Some(
        RootPlan {
            root_path: path.duplicate(),
            main_repo_path,
            affected_projects,
            worktree_repo: repository.id,
            branch_name: repository.branch_name.clone(),
            remote_connection,
        },
    )
}

/// A plan is only made for a linked worktree that lies in the managed
/// directory and that some project has loaded.
pub proof fn only_managed_linked_worktrees_are_archivable(
    workspaces: Seq<OpenWorkspace>,
    path: PathView,
    base: PathView,
)
    requires
        archivable(workspaces, path, Some(base)),
    ensures
        path.within(base),
        affected(workspaces, path).len() > 0,
        linked_repository(workspaces, path) matches Some(repository) && repository.linked
            && repository.work_directory@.same_as(path),
{
    lemma_live_repository_is_wanted(workspaces, path, true);
}

/// A main worktree is never archivable, and neither is a path at which no
/// linked worktree is open.
pub proof fn main_worktrees_are_not_archivable(
    workspaces: Seq<OpenWorkspace>,
    path: PathView,
    base: Option<PathView>,
)
    requires
        forall|w: int, i: int|
            0 <= w < workspaces.len() && 0 <= i < workspaces[w].repositories@.len()
                && workspaces[w].same_connection && (
            #[trigger] workspaces[w].repositories@[i]).work_directory@.same_as(path)
                ==> !workspaces[w].repositories@[i].linked,
    ensures
        !archivable(workspaces, path, base),
{
    lemma_live_repository_is_wanted(workspaces, path, true);
}

/// Every open project on the machine that has the worktree loaded is in the
/// plan, and nothing else is.
pub proof fn plans_name_every_project_with_the_worktree(
    workspaces: Seq<OpenWorkspace>,
    path: PathView,
    project: AffectedProject,
)
    ensures
        affected(workspaces, path).contains(project) <==> exists|w: int|
            0 <= w < workspaces.len() && #[trigger] affected_by(workspaces[w], path) == Some(
                project,
            ),
    decreases workspaces.len(),
{
    let all = affected(workspaces, path);
    if workspaces.len() > 0 {
        let rest = workspaces.drop_last();
        let earlier = affected(rest, path);
        plans_name_every_project_with_the_worktree(rest, path, project);
        assert(all == match affected_by(workspaces.last(), path) {
            Some(last) => earlier.push(last),
            None => earlier,
        });
        if earlier.contains(project) {
            let k = earlier.index_of(project);
            assert(all[k] == project);
            let w = choose|w: int|
                0 <= w < rest.len() && #[trigger] affected_by(rest[w], path) == Some(project);
            assert(affected_by(workspaces[w], path) == Some(project));
        }
        if affected_by(workspaces.last(), path) == Some(project) {
            assert(all[earlier.len() as int] == project);
            assert(affected_by(workspaces[workspaces.len() - 1], path) == Some(project));
        }
        if exists|w: int|
            0 <= w < workspaces.len() && #[trigger] affected_by(workspaces[w], path) == Some(
                project,
            ) {
            let w = choose|w: int|
                0 <= w < workspaces.len() && #[trigger] affected_by(workspaces[w], path) == Some(
                    project,
                );
            if w < rest.len() {
                assert(affected_by(rest[w], path) == Some(project));
            }
        }
        if all.contains(project) && !earlier.contains(project) {
            let k = all.index_of(project);
            if k < earlier.len() {
                assert(earlier[k] == project);
            }
        }
    }
}

} // verus!
