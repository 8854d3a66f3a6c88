//! What a cleanup asks for, answer by answer.
use vstd::prelude::*;

#[allow(unused_imports)]
use crate::model::{ConnectionId, ThreadId};
use crate::thread_cleanup::{Cleanup, Record};
#[allow(unused_imports)]
use crate::thread_cleanup::{CleanupAction, CleanupPhase, CleanupReply};

verus! {

/// Whether the cleanup is about to check `todo`, one after the other, over the
/// given connection: the first one is asked about now.
pub open spec fn about_to_check(
    cleanup: Cleanup,
    todo: Seq<Record>,
    connection: Option<ConnectionId>,
) -> bool {
    if todo.len() == 0 {
        cleanup.pending() is Finish
    } else {
        &&& cleanup.pending() == (CleanupAction::<Record>::CheckReferenced { id: todo[0].id })
        &&& cleanup.connection == connection
        &&& cleanup.phase == (CleanupPhase::Checking { row: todo[0], rest: todo.drop_first() })
    }
}

/// A cleanup looks up the connection of its thread, fetches the records of its
/// thread, and unlinks it. It ends where there are no records, or where they
/// cannot be fetched, or where the thread cannot be unlinked. Otherwise all the
/// fetched records are checked, from the first one on.
pub proof fn cleanups_unlink_before_they_check(
    thread: ThreadId,
    connection: Option<ConnectionId>,
    rows: Seq<Record>,
)
    ensures
        ({
            let start = Cleanup::starting(thread);
            let found = start.next(CleanupReply::Connection(connection));
            let fetched = found.next(CleanupReply::Records(Some(rows)));
            &&& start.pending() == CleanupAction::<Record>::FindConnection(thread)
            &&& found.pending() == CleanupAction::<Record>::FetchRecords(thread)
            &&& found.next(CleanupReply::Records(None)).pending() is Finish
            &&& rows.len() == 0 ==> fetched.pending() is Finish
            &&& rows.len() > 0 ==> {
                &&& fetched.pending() == CleanupAction::<Record>::UnlinkThread(thread)
                &&& fetched.next(CleanupReply::Unlinked(false)).pending() is Finish
                &&& about_to_check(fetched.next(CleanupReply::Unlinked(true)), rows, connection)
            }
        }),
{
}

/// A record that is still referred to, or of which that cannot be found out,
/// is passed over. One that is not referred to is cleaned up, over the
/// connection of the thread. Either way the next record comes.
pub proof fn cleanups_take_every_record_in_turn(cleanup: Cleanup, row: Record, rest: Seq<Record>)
    requires
        cleanup.phase == (CleanupPhase::Checking { row, rest }),
    ensures
        ({
            let unused = cleanup.next(CleanupReply::Referenced(Some(false)));
            let connection = cleanup.connection;
            &&& cleanup.pending() == (CleanupAction::<Record>::CheckReferenced { id: row.id })
            &&& about_to_check(
                cleanup.next(CleanupReply::Referenced(Some(true))),
                rest,
                connection,
            )
            &&& about_to_check(cleanup.next(CleanupReply::Referenced(None)), rest, connection)
            &&& unused.pending() == (CleanupAction::CleanUpRecord { row, connection })
            &&& about_to_check(unused.next(CleanupReply::CleanedUp), rest, connection)
        }),
{
}

} // verus!
