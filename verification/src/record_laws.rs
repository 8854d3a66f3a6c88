//! What the deletion of a record asks for, answer by answer.
use vstd::prelude::*;

use crate::model::ConnectionId;
#[allow(unused_imports)]
use crate::record::{RecordAction, RecordDeletion, RecordReply};
#[allow(unused_imports)]
use crate::text::decimal;

verus! {

/// The deletion of a record opens the main repository on its machine, deletes
/// the ref that bears the id of the record there, and deletes that record. A
/// repository that cannot be opened only costs the ref.
pub proof fn deletions_go_step_by_step(
    id: i64,
    main_repo_path: Seq<char>,
    connection: Option<ConnectionId>,
)
    ensures
        ({
            let start = RecordDeletion::starting(id, main_repo_path, connection);
            let opened = start.next(RecordReply::Opened(true));
            let unopened = start.next(RecordReply::Opened(false));
            let unreferenced = opened.next(RecordReply::RefDeleted);
            &&& start.pending() == (RecordAction::OpenRepository {
                path: main_repo_path,
                connection,
            })
            &&& opened.pending() == (RecordAction::DeleteRef {
                name: "refs/archived-worktrees/"@ + decimal(id as int),
            })
            &&& unreferenced.pending() == (RecordAction::<Seq<char>>::DeleteRecord { id })
            &&& unreferenced.next(RecordReply::RecordDeleted).pending() is Finish
            &&& unopened.pending() == (RecordAction::<Seq<char>>::DeleteRecord { id })
            &&& unopened.next(RecordReply::RecordDeleted).pending() is Finish
        }),
{
}

} // verus!
