//! What a content check asks for, and what it makes of the answers.
use vstd::prelude::*;

#[allow(unused_imports)]
use crate::content::{ContentAction, ContentCheck, ContentPhase, ContentReply};
#[allow(unused_imports)]
use crate::error::ArchiveError;
use crate::model::EntryKind;

verus! {

/// Whether the check has ended with `content` as its answer.
pub open spec fn found(check: ContentCheck<Seq<char>>, content: bool) -> bool {
    check.pending() is Finish && check.outcome() == Some(
        Ok::<bool, ArchiveError<Seq<char>>>(content),
    )
}

/// Whether the check has ended with `error`.
pub open spec fn failed_for(check: ContentCheck<Seq<char>>, error: ArchiveError<Seq<char>>) -> bool {
    check.pending() is Finish && check.outcome() == Some(
        Err::<bool, ArchiveError<Seq<char>>>(error),
    )
}

/// A check of a path reads the entry there. Nothing is no content; a file or a
/// symbolic link is content, even one to a directory; and a directory is
/// content just when its listing has an entry. Failures are passed on.
pub proof fn checks_decide_by_entry_and_listing(
    check: ContentCheck<Seq<char>>,
    kind: EntryKind,
    occupied: bool,
    cause: Seq<char>,
)
    requires
        check.phase is ReadingEntry,
    ensures
        ({
            let seen = check.next(ContentReply::Entry(Ok(Some(kind))));
            &&& check.pending() == (ContentAction::ReadEntry { path: check.path })
            &&& check.outcome() is None
            &&& failed_for(check.next(ContentReply::Entry(Err(cause))), ArchiveError::Host(cause))
            &&& found(check.next(ContentReply::Entry(Ok(None))), false)
            &&& kind.is_symlink ==> found(seen, true)
            &&& !kind.is_dir ==> found(seen, true)
            &&& kind.is_dir && !kind.is_symlink ==> {
                &&& seen.pending() == (ContentAction::ReadDirectory { path: check.path })
                &&& seen.outcome() is None
                &&& found(seen.next(ContentReply::Listing(Ok(occupied))), occupied)
                &&& failed_for(
                    seen.next(ContentReply::Listing(Err(cause))),
                    ArchiveError::Host(cause),
                )
            }
        }),
{
}

/// A check that needs the application state asks for it first, fails without
/// it, and then goes on as a check of the path.
pub proof fn checks_need_the_app_state_first(check: ContentCheck<Seq<char>>)
    requires
        check.phase is FindingAppState,
    ensures
        check.pending() == ContentAction::<Seq<char>>::FindAppState,
        failed_for(check.next(ContentReply::AppState(false)), ArchiveError::NoAppState),
        check.next(ContentReply::AppState(true)) == (ContentCheck {
            path: check.path,
            phase: ContentPhase::ReadingEntry,
        }),
{
}

} // verus!
