//! That every process comes to an end: each answer to a pending request brings
//! the end closer, and what is no answer to it changes nothing.
use vstd::prelude::*;

#[allow(unused_imports)]
use crate::content::{ContentAction, ContentCheck, ContentPhase, ContentReply};
#[allow(unused_imports)]
use crate::model::ThreadId;
#[allow(unused_imports)]
use crate::path::PathView;
#[allow(unused_imports)]
use crate::persist::{PersistAction, PersistPhase, PersistReply, PersistWorktree, ThreadEntry};
#[allow(unused_imports)]
use crate::plan::{AffectedProject, PlanView};
#[allow(unused_imports)]
use crate::record::{RecordAction, RecordDeletion, RecordPhase, RecordReply};
#[allow(unused_imports)]
use crate::removal::{RemoveAction, RemovePhase, RemoveReply, RemoveRoot};
#[allow(unused_imports)]
use crate::repository::{OpenAction, OpenPhase, OpenReply, OpenRepository};
#[allow(unused_imports)]
use crate::restore::{RestoreAction, RestorePhase, RestoreReply, RestoreWorktree};
#[allow(unused_imports)]
use crate::thread_cleanup::{Cleanup, CleanupAction, CleanupPhase, CleanupReply, Record};
#[allow(unused_imports)]
use crate::workspace::RepositoryEntry;

verus! {

/// How far a process is from its end: how many stages it still has before it,
/// and how many answers it can take before it leaves the present one. The end
/// itself is at `(0, 0)`.
pub type Distance = (nat, nat);

/// Whether `now` is closer to the end than `before`. No process can come
/// closer forever.
pub open spec fn closer(now: Distance, before: Distance) -> bool {
    now.0 < before.0 || (now.0 == before.0 && now.1 < before.1)
}

/// Whether `reply` is an answer to `action`.
pub open spec fn content_answered(
    action: ContentAction<Seq<char>>,
    reply: ContentReply<Seq<char>>,
) -> bool {
    match action {
        ContentAction::FindAppState => reply is AppState,
        ContentAction::ReadEntry { .. } => reply is Entry,
        ContentAction::ReadDirectory { .. } => reply is Listing,
        ContentAction::Finish => false,
    }
}

/// How far a content check is from its end.
pub open spec fn content_distance(phase: ContentPhase<Seq<char>>) -> Distance {
    match phase {
        ContentPhase::FindingAppState => (3, 0),
        ContentPhase::ReadingEntry => (2, 0),
        ContentPhase::ReadingDirectory => (1, 0),
        ContentPhase::Finished(_) => (0, 0),
    }
}

/// Content checks come to an end.
pub proof fn content_checks_come_to_an_end(
    process: ContentCheck<Seq<char>>,
    reply: ContentReply<Seq<char>>,
)
    ensures
        content_answered(process.pending(), reply) ==> closer(
            content_distance(process.next(reply).phase),
            content_distance(process.phase),
        ),
        !content_answered(process.pending(), reply) ==> process.next(reply) == process,
        process.phase is Finished <==> content_distance(process.phase) == (0nat, 0nat),
{
}

/// Whether `reply` is an answer to `action`.
pub open spec fn open_answered(
    action: OpenAction<Seq<char>>,
    reply: OpenReply<Seq<char>, Seq<RepositoryEntry>>,
) -> bool {
    match action {
        OpenAction::FindAppState => reply is AppState,
        OpenAction::CheckConnection(_) => reply is Active,
        OpenAction::Connect(_) => reply is Connected,
        OpenAction::CreateRemoteProject | OpenAction::CreateLocalProject => reply is ProjectCreated,
        OpenAction::AddWorktree { .. } => reply is WorktreeAdded,
        OpenAction::AwaitScan => reply is Scanned,
        OpenAction::ListRepositories => reply is Repositories,
        OpenAction::AwaitBarrier(_) => reply is Ready,
        OpenAction::Finish => false,
    }
}

/// How far an attempt to open a repository is from its end.
pub open spec fn open_distance(phase: OpenPhase<Seq<char>>) -> Distance {
    match phase {
        OpenPhase::FindingAppState => (8, 0),
        OpenPhase::CheckingConnection(_) => (7, 0),
        OpenPhase::Connecting(_) => (6, 0),
        OpenPhase::CreatingRemoteProject | OpenPhase::CreatingLocalProject => (5, 0),
        OpenPhase::AddingWorktree => (4, 0),
        OpenPhase::Scanning => (3, 0),
        OpenPhase::Listing => (2, 0),
        OpenPhase::AwaitingBarrier(_) => (1, 0),
        OpenPhase::Finished(_) => (0, 0),
    }
}

/// Attempts to open a repository come to an end.
pub proof fn attempts_to_open_come_to_an_end(
    process: OpenRepository<Seq<char>, PathView>,
    reply: OpenReply<Seq<char>, Seq<RepositoryEntry>>,
)
    ensures
        open_answered(process.pending(), reply) ==> closer(
            open_distance(process.next(reply).phase),
            open_distance(process.phase),
        ),
        !open_answered(process.pending(), reply) ==> process.next(reply) == process,
        process.phase is Finished <==> open_distance(process.phase) == (0nat, 0nat),
{
}

/// Whether `reply` is an answer to `action`.
pub open spec fn record_answered(
    action: RecordAction<Seq<char>>,
    reply: RecordReply,
) -> bool {
    match action {
        RecordAction::OpenRepository { .. } => reply is Opened,
        RecordAction::DeleteRef { .. } => reply is RefDeleted,
        RecordAction::DeleteRecord { .. } => reply is RecordDeleted,
        RecordAction::Finish => false,
    }
}

/// How far the deletion of a record is from its end.
pub open spec fn record_distance(phase: RecordPhase) -> Distance {
    match phase {
        RecordPhase::OpeningMain => (3, 0),
        RecordPhase::DeletingRef => (2, 0),
        RecordPhase::DeletingRecord => (1, 0),
        RecordPhase::Finished => (0, 0),
    }
}

/// Deletions of a record come to an end.
pub proof fn deletions_come_to_an_end(
    process: RecordDeletion<Seq<char>>,
    reply: RecordReply,
)
    ensures
        record_answered(process.pending(), reply) ==> closer(
            record_distance(process.next(reply).phase),
            record_distance(process.phase),
        ),
        !record_answered(process.pending(), reply) ==> process.next(reply) == process,
        process.phase is Finished <==> record_distance(process.phase) == (0nat, 0nat),
{
}

/// Whether `reply` is an answer to `action`.
pub open spec fn persist_answered(
    action: PersistAction<Seq<char>>,
    reply: PersistReply<Seq<char>, Seq<ThreadEntry>>,
) -> bool {
    match action {
        PersistAction::ReadHead { .. } => reply is Head,
        PersistAction::CreateCheckpoint { .. } => reply is Checkpoint,
        PersistAction::ReadBranch { .. } => reply is Branch,
        PersistAction::CreateRecord { .. } => reply is Record,
        PersistAction::ListThreads => reply is Threads,
        PersistAction::LinkThread { .. } => reply is Linked,
        PersistAction::DeleteRecord { .. } => reply is RecordDeleted,
        PersistAction::OpenRepository { .. } => reply is Opened,
        PersistAction::UpdateRef { .. } => reply is RefUpdated,
        PersistAction::Finish => false,
    }
}

/// How far a saving is from its end.
pub open spec fn persist_distance(phase: PersistPhase<Seq<char>, Seq<ThreadId>>) -> Distance {
    match phase {
        PersistPhase::ReadingHead => (8, 0),
        PersistPhase::Checkpointing { .. } => (7, 0),
        PersistPhase::ReadingBranch { .. } => (6, 0),
        PersistPhase::CreatingRecord { .. } => (5, 0),
        PersistPhase::ListingThreads { .. } => (4, 0),
        PersistPhase::Linking { rest, .. } => (3, rest.len()),
        PersistPhase::OpeningMain { .. } => (2, 0),
        PersistPhase::WritingRef { .. } | PersistPhase::DeletingRecord { .. } => (1, 0),
        PersistPhase::Finished(_) => (0, 0),
    }
}

/// Savings come to an end.
pub proof fn savings_come_to_an_end(
    process: PersistWorktree<Seq<char>, PlanView, Seq<ThreadId>>,
    reply: PersistReply<Seq<char>, Seq<ThreadEntry>>,
)
    ensures
        persist_answered(process.pending(), reply) ==> closer(
            persist_distance(process.next(reply).phase),
            persist_distance(process.phase),
        ),
        !persist_answered(process.pending(), reply) ==> process.next(reply) == process,
        process.phase is Finished <==> persist_distance(process.phase) == (0nat, 0nat),
{
}

/// Whether `reply` is an answer to `action`.
pub open spec fn remove_answered(
    action: RemoveAction<Seq<char>>,
    reply: RemoveReply<Seq<char>>,
) -> bool {
    match action {
        RemoveAction::Detach(_) => reply is Detached,
        RemoveAction::AwaitRelease(_) => reply is Released,
        RemoveAction::OpenRepository { .. } => reply is Opened,
        RemoveAction::RemoveWorktree { .. } => reply is Removed,
        RemoveAction::ReAdd { .. } => reply is ReAdded,
        RemoveAction::Finish => false,
    }
}

/// How far a removal is from its end.
pub open spec fn remove_distance(phase: RemovePhase<Seq<char>, Seq<AffectedProject>>) -> Distance {
    match phase {
        RemovePhase::Detaching { rest, .. } => (5, rest.len()),
        RemovePhase::AwaitingRelease { rest, .. } => (4, rest.len()),
        RemovePhase::OpeningMain => (3, 0),
        RemovePhase::Removing => (2, 0),
        RemovePhase::ReAdding { rest, .. } => (1, rest.len()),
        RemovePhase::Finished(_) => (0, 0),
    }
}

/// Removals come to an end.
pub proof fn removals_come_to_an_end(
    process: RemoveRoot<Seq<char>, PlanView, Seq<AffectedProject>>,
    reply: RemoveReply<Seq<char>>,
)
    ensures
        remove_answered(process.pending(), reply) ==> closer(
            remove_distance(process.next(reply).phase),
            remove_distance(process.phase),
        ),
        !remove_answered(process.pending(), reply) ==> process.next(reply) == process,
        process.phase is Finished <==> remove_distance(process.phase) == (0nat, 0nat),
{
}

/// Whether `reply` is an answer to `action`.
pub open spec fn cleanup_answered(
    action: CleanupAction<Record>,
    reply: CleanupReply<Seq<Record>>,
) -> bool {
    match action {
        CleanupAction::FindConnection(_) => reply is Connection,
        CleanupAction::FetchRecords(_) => reply is Records,
        CleanupAction::UnlinkThread(_) => reply is Unlinked,
        CleanupAction::CheckReferenced { .. } => reply is Referenced,
        CleanupAction::CleanUpRecord { .. } => reply is CleanedUp,
        CleanupAction::Finish => false,
    }
}

/// How far a cleanup is from its end.
pub open spec fn cleanup_distance(phase: CleanupPhase<Record, Seq<Record>>) -> Distance {
    match phase {
        CleanupPhase::FindingConnection => (4, 0),
        CleanupPhase::Fetching => (3, 0),
        CleanupPhase::Unlinking { .. } => (2, 0),
        CleanupPhase::Checking { rest, .. } => (1, 2 * rest.len() + 1),
        CleanupPhase::CleaningUp { rest, .. } => (1, 2 * rest.len()),
        CleanupPhase::Finished => (0, 0),
    }
}

/// Cleanups come to an end.
pub proof fn cleanups_come_to_an_end(
    process: Cleanup,
    reply: CleanupReply<Seq<Record>>,
)
    ensures
        cleanup_answered(process.pending(), reply) ==> closer(
            cleanup_distance(process.next(reply).phase),
            cleanup_distance(process.phase),
        ),
        !cleanup_answered(process.pending(), reply) ==> process.next(reply) == process,
        process.phase is Finished <==> cleanup_distance(process.phase) == (0nat, 0nat),
{
}

/// Whether `reply` is an answer to `action`.
pub open spec fn restore_answered(
    action: RestoreAction<Seq<char>>,
    reply: RestoreReply<Seq<char>>,
) -> bool {
    match action {
        RestoreAction::FindAppState => reply is AppState,
        RestoreAction::OpenRepository { .. } => reply is Opened,
        RestoreAction::ReadEntry { .. } => reply is Entry,
        RestoreAction::ReadDirectory { .. } => reply is Listing,
        RestoreAction::DrawToken => reply is Token,
        RestoreAction::CreateBackupDirectory { .. }
        | RestoreAction::MoveAside { .. }
        | RestoreAction::ClearDirectory { .. }
        | RestoreAction::MoveBack { .. }
        | RestoreAction::DropBackup { .. } => reply is Files,
        RestoreAction::RemoveWorktree { .. }
        | RestoreAction::CreateWorktree { .. }
        | RestoreAction::ChangeBranch { .. }
        | RestoreAction::Detach { .. }
        | RestoreAction::CreateBranch { .. }
        | RestoreAction::RestoreCheckpoint { .. } => reply is Git,
        RestoreAction::ReadHead => reply is Head,
        RestoreAction::Report(_) => reply is Reported,
        RestoreAction::Finish => false,
    }
}

/// How far a restore is from its end.
pub open spec fn restore_distance(phase: RestorePhase<Seq<char>>) -> Distance {
    match phase {
        RestorePhase::FindingAppState => (21, 0),
        RestorePhase::OpeningMain => (20, 0),
        RestorePhase::Probing => (19, 0),
        RestorePhase::CheckingEntry => (18, 0),
        RestorePhase::CheckingListing => (17, 0),
        RestorePhase::NamingBackup => (16, 0),
        RestorePhase::CreatingBackup => (15, 0),
        RestorePhase::MovingAside => (14, 0),
        RestorePhase::Unregistering => (13, 0),
        RestorePhase::CreatingWorktree => (12, 0),
        RestorePhase::OpeningWorktree => (11, 0),
        RestorePhase::ChangingBranch(_) => (10, 0),
        RestorePhase::ReadingHead => (9, 0),
        RestorePhase::Detaching | RestorePhase::CreatingBranch(_) => (8, 0),
        RestorePhase::RestoringCheckpoint => (7, 0),
        RestorePhase::Discarding(_) => (6, 0),
        RestorePhase::RollbackProbing(_) => (5, 0),
        RestorePhase::RollbackListing(_) => (4, 0),
        RestorePhase::RollbackClearing(_) => (3, 0),
        RestorePhase::MovingBack(_) => (2, 0),
        RestorePhase::DroppingBackup
        | RestorePhase::DroppingEmptyBackup(_)
        | RestorePhase::Reporting(_, _) => (1, 0),
        RestorePhase::Finished(_) => (0, 0),
    }
}

/// Restores come to an end.
pub proof fn restores_come_to_an_end(
    process: RestoreWorktree<Seq<char>>,
    reply: RestoreReply<Seq<char>>,
)
    ensures
        restore_answered(process.pending(), reply) ==> closer(
            restore_distance(process.next(reply).phase),
            restore_distance(process.phase),
        ),
        !restore_answered(process.pending(), reply) ==> process.next(reply) == process,
        process.phase is Finished <==> restore_distance(process.phase) == (0nat, 0nat),
{
}

/// A content check has an outcome just when it asks for nothing more.
pub proof fn content_checks_end_with_an_outcome(process: ContentCheck<Seq<char>>)
    ensures
        process.outcome() is Some <==> process.pending() is Finish,
{
}

/// An attempt to open a repository has an outcome just when it asks for nothing more.
pub proof fn attempts_to_open_end_with_an_outcome(process: OpenRepository<Seq<char>, PathView>)
    ensures
        process.outcome() is Some <==> process.pending() is Finish,
{
}

/// A saving has an outcome just when it asks for nothing more.
pub proof fn savings_end_with_an_outcome(process: PersistWorktree<Seq<char>, PlanView, Seq<ThreadId>>)
    ensures
        process.outcome() is Some <==> process.pending() is Finish,
{
}

/// A removal has an outcome just when it asks for nothing more.
pub proof fn removals_end_with_an_outcome(process: RemoveRoot<Seq<char>, PlanView, Seq<AffectedProject>>)
    ensures
        process.outcome() is Some <==> process.pending() is Finish,
{
}

/// A restore has an outcome just when it asks for nothing more.
pub proof fn restores_end_with_an_outcome(process: RestoreWorktree<Seq<char>>)
    ensures
        process.outcome() is Some <==> process.pending() is Finish,
{
}

} // verus!
