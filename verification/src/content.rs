//! Whether a restore would destroy anything at the worktree path.
use vstd::prelude::*;

use crate::error::ArchiveError;
#[allow(unused_imports)]
use crate::model::failure_text;
use crate::model::{ArchivedGitWorktree, ConnectionId, EntryKind};
use crate::trace::Process;
#[allow(unused_imports)]
use crate::trace::{after, happened, lemma_happened_last};

verus! {

/// What an entry at the worktree path says of content there: `Some(true)` for
/// a file or a symbolic link, `Some(false)` where there is nothing, and `None`
/// for a directory, whose listing has to decide.
pub open spec fn entry_content(entry: Option<EntryKind>) -> Option<bool> {
    match entry {
        None => Some(false),
        Some(kind) => if kind.is_symlink || !kind.is_dir {
            Some(true)
        } else {
            None
        },
    }
}

/// Decides from an entry whether there is content, where it can be decided.
pub fn content_of_entry(entry: Option<EntryKind>) -> (r: Option<bool>)
    ensures
        r == entry_content(entry),
{
    match entry {
        None => Some(false),
        Some(kind) => {
            if kind.is_symlink || !kind.is_dir {
                Some(true)
            } else {
                None
            }
        },
    }
}

/// What a content check asks its environment for next. Every request only
/// looks.
#[derive(Debug, PartialEq, Eq)]
pub enum ContentAction<S> {
    /// Find an open workspace to take the application state from.
    FindAppState,
    /// Read the metadata of the entry at `path`.
    ReadEntry { path: S },
    /// Read the directory at `path` as far as its first entry.
    ReadDirectory { path: S },
    /// Nothing: the check has ended.
    Finish,
}

impl View for ContentAction<String> {
    type V = ContentAction<Seq<char>>;

    open spec fn view(&self) -> ContentAction<Seq<char>> {
        match self {
            ContentAction::FindAppState => ContentAction::FindAppState,
            ContentAction::ReadEntry { path } => ContentAction::ReadEntry { path: path@ },
            ContentAction::ReadDirectory { path } => ContentAction::ReadDirectory { path: path@ },
            ContentAction::Finish => ContentAction::Finish,
        }
    }
}

/// What the environment answers to a [`ContentAction`].
#[derive(Debug, PartialEq, Eq)]
pub enum ContentReply<S> {
    /// To `FindAppState`: whether there is one.
    AppState(bool),
    /// To `ReadEntry`: the entry, if there is one.
    Entry(Result<Option<EntryKind>, S>),
    /// To `ReadDirectory`: whether it has an entry.
    Listing(Result<bool, S>),
}

impl View for ContentReply<String> {
    type V = ContentReply<Seq<char>>;

    open spec fn view(&self) -> ContentReply<Seq<char>> {
        match self {
            ContentReply::AppState(found) => ContentReply::AppState(*found),
            ContentReply::Entry(result) => ContentReply::Entry(failure_text(*result)),
            ContentReply::Listing(result) => ContentReply::Listing(failure_text(*result)),
        }
    }
}

/// How far a content check has come.
#[derive(Debug, PartialEq, Eq)]
pub enum ContentPhase<S> {
    FindingAppState,
    ReadingEntry,
    ReadingDirectory,
    Finished(Result<bool, ArchiveError<S>>),
}

impl View for ContentPhase<String> {
    type V = ContentPhase<Seq<char>>;

    open spec fn view(&self) -> ContentPhase<Seq<char>> {
        match self {
            ContentPhase::FindingAppState => ContentPhase::FindingAppState,
            ContentPhase::ReadingEntry => ContentPhase::ReadingEntry,
            ContentPhase::ReadingDirectory => ContentPhase::ReadingDirectory,
            ContentPhase::Finished(Ok(content)) => ContentPhase::Finished(Ok(*content)),
            ContentPhase::Finished(Err(error)) => ContentPhase::Finished(Err(error@)),
        }
    }
}

/// A content check in progress.
#[derive(Debug, PartialEq, Eq)]
pub struct ContentCheck<S> {
    pub path: S,
    pub phase: ContentPhase<S>,
}

impl View for ContentCheck<String> {
    type V = ContentCheck<Seq<char>>;

    open spec fn view(&self) -> ContentCheck<Seq<char>> {
        ContentCheck { path: self.path@, phase: self.phase@ }
    }
}

impl ContentCheck<Seq<char>> {
    /// The same check in another phase.
    pub open spec fn at(self, phase: ContentPhase<Seq<char>>) -> Self {
        ContentCheck { phase, ..self }
    }

    /// The check with what it found.
    pub open spec fn decided(self, content: bool) -> Self {
        self.at(ContentPhase::Finished(Ok(content)))
    }

    /// The check, failed.
    pub open spec fn failed(self, error: ArchiveError<Seq<char>>) -> Self {
        self.at(ContentPhase::Finished(Err(error)))
    }

    /// The request that the check waits for.
    pub open spec fn pending(self) -> ContentAction<Seq<char>> {
        match self.phase {
            ContentPhase::FindingAppState => ContentAction::FindAppState,
            ContentPhase::ReadingEntry => ContentAction::ReadEntry { path: self.path },
            ContentPhase::ReadingDirectory => ContentAction::ReadDirectory { path: self.path },
            ContentPhase::Finished(_) => ContentAction::Finish,
        }
    }

    /// The check after `reply` to the pending request. A reply to another
    /// request changes nothing.
    pub open spec fn next(self, reply: ContentReply<Seq<char>>) -> Self {
        match (self.phase, reply) {
            (ContentPhase::FindingAppState, ContentReply::AppState(found)) => if found {
                self.at(ContentPhase::ReadingEntry)
            } else {
                self.failed(ArchiveError::NoAppState)
            },
            (ContentPhase::ReadingEntry, ContentReply::Entry(result)) => match result {
                Err(cause) => self.failed(ArchiveError::Host(cause)),
                Ok(entry) => match entry_content(entry) {
                    Some(content) => self.decided(content),
                    None => self.at(ContentPhase::ReadingDirectory),
                },
            },
            (ContentPhase::ReadingDirectory, ContentReply::Listing(result)) => match result {
                Err(cause) => self.failed(ArchiveError::Host(cause)),
                Ok(occupied) => self.decided(occupied),
            },
            _ => self,
        }
    }

    /// What the check found, once it has ended.
    pub open spec fn outcome(self) -> Option<Result<bool, ArchiveError<Seq<char>>>> {
        match self.phase {
            ContentPhase::Finished(result) => Some(result),
            _ => None,
        }
    }
}

impl ContentCheck<String> {
    /// The request that the check waits for.
    pub fn pending(&self) -> (r: ContentAction<String>)
        ensures
            r@ == self@.pending(),
    {
        match &self.phase {
            ContentPhase::FindingAppState => ContentAction::FindAppState,
            ContentPhase::ReadingEntry => ContentAction::ReadEntry { path: self.path.clone() },
            ContentPhase::ReadingDirectory =>
                ContentAction::ReadDirectory { path: self.path.clone() },
            ContentPhase::Finished(_) => ContentAction::Finish,
        }
    }

    /// Takes the answer to the pending request and moves on. An answer to
    /// another request is ignored.
    pub fn step(self, reply: ContentReply<String>) -> (r: Self)
        ensures
            r@ == self@.next(reply@),
    {
        let ContentCheck { path, phase } = self;
        let phase = match (phase, reply) {
            (ContentPhase::FindingAppState, ContentReply::AppState(found)) => {
                if found {
                    ContentPhase::ReadingEntry
                } else {
                    ContentPhase::Finished(Err(ArchiveError::NoAppState))
                }
            },
            (ContentPhase::ReadingEntry, ContentReply::Entry(result)) => match result {
                Err(cause) => ContentPhase::Finished(Err(ArchiveError::Host(cause))),
                Ok(entry) => match content_of_entry(entry) {
                    Some(content) => ContentPhase::Finished(Ok(content)),
                    None => ContentPhase::ReadingDirectory,
                },
            },
            (ContentPhase::ReadingDirectory, ContentReply::Listing(result)) => match result {
                Err(cause) => ContentPhase::Finished(Err(ArchiveError::Host(cause))),
                Ok(occupied) => ContentPhase::Finished(Ok(occupied)),
            },
            (phase, _) => phase,
        };
        ContentCheck { path, phase }
    }

    /// Whether there is content, or why that could not be told. `None` while
    /// a request is pending.
    pub fn finish(self) -> (r: Option<Result<bool, ArchiveError<String>>>)
        ensures
            match r {
                Some(Ok(content)) => self@.outcome() == Some(
                    Ok::<_, ArchiveError<Seq<char>>>(content),
                ),
                Some(Err(error)) => self@.outcome() == Some(Err::<bool, _>(error@)),
                None => self@.outcome() is None,
            },
    {
        match self.phase {
            ContentPhase::Finished(result) => Some(result),
            _ => None,
        }
    }
}

/// Starts to find out whether the worktree path has any content that a
/// restore would destroy. A path that doesn't exist or that is an empty
/// directory has no content; anything else (a non-empty directory, a file or
/// a symbolic link at this path) counts as content.
pub fn worktree_path_has_content(path: String) -> (r: ContentCheck<String>)
    ensures
        r@ == (ContentCheck { path: path@, phase: ContentPhase::ReadingEntry }),
{
    ContentCheck { path, phase: ContentPhase::ReadingEntry }
}

/// Starts to find out whether restoring this archived worktree would clobber
/// any pre-existing content on disk at the worktree's path.
///
/// Callers run this before a restore and prompt the user for confirmation if
/// there is content, since the restore will otherwise destroy it.
pub fn restore_would_overwrite(
    row: &ArchivedGitWorktree<String>,
    remote_connection: Option<ConnectionId>,
) -> (r: ContentCheck<String>)
    ensures
        r@ == (ContentCheck {
            path: row@.worktree_path,
            phase: if remote_connection is Some {
                ContentPhase::Finished(Err(ArchiveError::RemoteRestoreUnsupported))
            } else {
                ContentPhase::FindingAppState
            },
        }),
{
    let path = row.worktree_path.clone();
    if remote_connection.is_some() {
        ContentCheck {
            path,
            phase: ContentPhase::Finished(Err(ArchiveError::RemoteRestoreUnsupported)),
        }
    } else {
        ContentCheck { path, phase: ContentPhase::FindingAppState }
    }
}

impl Process for ContentCheck<Seq<char>> {
    type Request = ContentAction<Seq<char>>;

    type Reply = ContentReply<Seq<char>>;

    open spec fn awaits(self) -> ContentAction<Seq<char>> {
        self.pending()
    }

    open spec fn advance(self, reply: ContentReply<Seq<char>>) -> Self {
        self.next(reply)
    }
}

/// A test of a request and the answer to it.
pub type ContentExchange = spec_fn(ContentAction<Seq<char>>, ContentReply<Seq<char>>) -> bool;

/// Nothing was seen at `path`.
pub open spec fn saw_nothing(path: Seq<char>) -> ContentExchange {
    |q: ContentAction<Seq<char>>, r: ContentReply<Seq<char>>|
        q == (ContentAction::ReadEntry { path }) && r matches ContentReply::Entry(Ok(None))
}

/// A directory was seen at `path`.
pub open spec fn saw_directory(path: Seq<char>) -> ContentExchange {
    |q: ContentAction<Seq<char>>, r: ContentReply<Seq<char>>|
        {
            &&& q == (ContentAction::ReadEntry { path })
            &&& r matches ContentReply::Entry(Ok(Some(kind)))
            &&& kind.is_dir && !kind.is_symlink
        }
}

/// A file or a symbolic link was seen at `path`.
pub open spec fn saw_file_or_link(path: Seq<char>) -> ContentExchange {
    |q: ContentAction<Seq<char>>, r: ContentReply<Seq<char>>|
        {
            &&& q == (ContentAction::ReadEntry { path })
            &&& r matches ContentReply::Entry(Ok(Some(kind)))
            &&& !kind.is_dir || kind.is_symlink
        }
}

/// The directory at `path` was seen to be occupied, or not.
pub open spec fn saw_occupied(path: Seq<char>, occupied: bool) -> ContentExchange {
    |q: ContentAction<Seq<char>>, r: ContentReply<Seq<char>>|
        {
            &&& q == (ContentAction::ReadDirectory { path })
            &&& r matches ContentReply::Listing(Ok(seen))
            &&& seen == occupied
        }
}

/// A path has no content just where nothing or an empty directory is there. A
/// file, a symbolic link, and a directory that has an entry are content.
pub proof fn only_nothing_and_empty_directories_are_no_content(
    start: ContentCheck<Seq<char>>,
    replies: Seq<ContentReply<Seq<char>>>,
)
    requires
        start.phase is ReadingEntry || start.phase is FindingAppState,
    ensures
        ({
            let path = start.path;
            let now = after(start, replies);
            &&& now.path == path
            &&& now.phase is ReadingDirectory ==> happened(start, replies, saw_directory(path))
            &&& now.outcome() matches Some(Ok(content)) ==> if content {
                happened(start, replies, saw_file_or_link(path)) || happened(
                    start,
                    replies,
                    saw_occupied(path, true),
                )
            } else {
                happened(start, replies, saw_nothing(path)) || (happened(
                    start,
                    replies,
                    saw_directory(path),
                ) && happened(start, replies, saw_occupied(path, false)))
            }
        }),
    decreases replies.len(),
{
    if replies.len() > 0 {
        let path = start.path;
        only_nothing_and_empty_directories_are_no_content(start, replies.drop_last());
        lemma_happened_last(start, replies, saw_nothing(path));
        lemma_happened_last(start, replies, saw_directory(path));
        lemma_happened_last(start, replies, saw_file_or_link(path));
        lemma_happened_last(start, replies, saw_occupied(path, true));
        lemma_happened_last(start, replies, saw_occupied(path, false));
    }
}

} // verus!
