# worktree_archive

Archives linked git worktrees and restores them later.

- `build_root_plan` decides whether a worktree can be archived, and gathers what
  that takes.
- `persist_worktree_state` saves its git state in two detached commits, a record
  and a ref; `rollback_persist` undoes that.
- `remove_root` removes it from its projects and from disk.
- `restore_would_overwrite` looks for content that a restore would destroy, and
  `restore_worktree_via_git` restores, with that content moved aside.
- `cleanup_archived_worktree_record` and `cleanup_thread_archived_worktrees`
  delete what is no longer referred to.

`src/` is the library, verified with Verus. Every operation is a process: it has
a `pending` request, and `step` takes the answer to it. Contracts say what each
answer leads to. The modules `persist_laws`, `restore_laws`, `round_trip` and
`progress`, and the ends of the others, prove what holds of every run, such as
that content is moved aside before anything can touch it, and that a failed
restore moves it back or says where it is.

`app/` runs the processes against an application that implements its `Host`
trait. `tests/` runs them on small stand-ins.
