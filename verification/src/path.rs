//! Paths, compared part by part.
use vstd::prelude::*;

verus! {

/// One part of a path, as the platform divides it.
#[derive(Clone, Debug, PartialEq, Eq)]
pub enum PathPart<S> {
    /// A drive or share, in a form in which equal ones have equal text.
    Prefix(S),
    /// The root directory.
    RootDir,
    /// A leading `.`
    CurDir,
    /// A `..`
    ParentDir,
    /// A name.
    Normal(S),
}

impl View for PathPart<String> {
    type V = PathPart<Seq<char>>;

    open spec fn view(&self) -> PathPart<Seq<char>> {
        match self {
            PathPart::Prefix(name) => PathPart::Prefix(name@),
            PathPart::RootDir => PathPart::RootDir,
            PathPart::CurDir => PathPart::CurDir,
            PathPart::ParentDir => PathPart::ParentDir,
            PathPart::Normal(name) => PathPart::Normal(name@),
        }
    }
}

/// The parts of a path by their text.
pub open spec fn parts_text(parts: Seq<PathPart<String>>) -> Seq<PathPart<Seq<char>>> {
    parts.map_values(|part: PathPart<String>| part@)
}

/// What is between the slashes of a text.
pub open spec fn segments(text: Seq<char>) -> Seq<Seq<char>>
    decreases text.len(),
{
    if text.len() == 0 {
        seq![Seq::empty()]
    } else {
        let before = segments(text.drop_last());
        if text.last() == '/' {
            before.push(Seq::empty())
        } else {
            before.update(before.len() - 1, before.last().push(text.last()))
        }
    }
}

/// Whether a segment counts as a part: repeated slashes and a `.` do not.
pub open spec fn counts(segment: Seq<char>) -> bool {
    segment.len() > 0 && segment != seq!['.']
}

/// The part that a segment stands for.
pub open spec fn part_of(segment: Seq<char>) -> PathPart<Seq<char>> {
    if segment == seq!['.', '.'] {
        PathPart::ParentDir
    } else {
        PathPart::Normal(segment)
    }
}

/// The part that the beginning of a text stands for.
pub open spec fn leading_part(text: Seq<char>) -> Seq<PathPart<Seq<char>>> {
    if text.len() > 0 && text[0] == '/' {
        seq![PathPart::RootDir]
    } else if segments(text)[0] == seq!['.'] {
        seq![PathPart::CurDir]
    } else {
        seq![]
    }
}

/// The parts of a text whose only separator is the slash, and that names no
/// drive or share.
pub open spec fn slash_parts(text: Seq<char>) -> Seq<PathPart<Seq<char>>> {
    leading_part(text) + segments(text).filter(|s: Seq<char>| counts(s)).map_values(
        |s: Seq<char>| part_of(s),
    )
}

/// The text with every backslash turned into a slash.
pub open spec fn with_slashes(text: Seq<char>) -> Seq<char> {
    text.map_values(
        |c: char|
            if c == '\\' {
                '/'
            } else {
                c
            },
    )
}

/// Whether a text begins with a drive: a letter and a colon.
pub open spec fn names_drive(text: Seq<char>) -> bool {
    text.len() >= 2 && ('a' <= text[0] <= 'z' || 'A' <= text[0] <= 'Z') && text[1] == ':'
}

/// Whether a text begins with two slashes.
pub open spec fn begins_doubly(text: Seq<char>) -> bool {
    text.len() >= 2 && text[0] == '/' && text[1] == '/'
}

/// Whether the first of `parts` is a drive or a share.
pub open spec fn begins_with_prefix(parts: Seq<PathPart<Seq<char>>>) -> bool {
    parts.len() > 0 && parts[0] is Prefix
}

/// Whether `parts` can be those of `text` where both the slash and the
/// backslash separate. After a drive comes what is behind it. Two separators
/// in front may or may not stand for a share.
pub open spec fn parted_by_both(text: Seq<char>, parts: Seq<PathPart<Seq<char>>>) -> bool {
    if names_drive(text) {
        begins_with_prefix(parts) && parts.drop_first() == slash_parts(with_slashes(text.skip(2)))
    } else {
        parts == slash_parts(with_slashes(text)) || (begins_doubly(with_slashes(text))
            && begins_with_prefix(parts))
    }
}

/// Whether `parts` can be those of `text` on a platform with the given
/// separator. Where that is the slash, nothing else separates, and there are
/// no drives or shares.
pub open spec fn parted(
    text: Seq<char>,
    separator: char,
    parts: Seq<PathPart<Seq<char>>>,
) -> bool {
    if separator == '/' {
        parts == slash_parts(text)
    } else {
        parted_by_both(text, parts)
    }
}

/// Whether every platform divides `text` alike: it has no backslash, and names
/// no drive or share.
pub open spec fn portable(text: Seq<char>) -> bool {
    !text.contains('\\') && !begins_doubly(text) && !names_drive(text)
}

/// Divides a path with `std::path::Path::components`, moves each `Component`
/// into a [`PathPart`], and hands back `std::path::MAIN_SEPARATOR` with them.
///
/// Believed of it, on the platforms that its documentation describes: where
/// the separator is the slash, as on Unix, paths are divided at slashes only;
/// elsewhere, as on Windows, at slashes and backslashes, after a drive or a
/// share. Repeated and trailing separators and every `.` but a leading one are
/// dropped, and nothing else is resolved. By which text a drive or a share is
/// known, which texts name a share, and what comes after one, is left unsaid.
#[verifier::external_body]
fn split_path(text: &str) -> (r: (char, Vec<PathPart<String>>))
    ensures
        parted(text@, r.0, parts_text(r.1@)),
{
    let parts = std::path::Path::new(text).components().map(|part| match part {
        std::path::Component::Prefix(prefix) => PathPart::Prefix(format!("{:?}", prefix.kind())),
        std::path::Component::RootDir => PathPart::RootDir,
        std::path::Component::CurDir => PathPart::CurDir,
        std::path::Component::ParentDir => PathPart::ParentDir,
        std::path::Component::Normal(name) => PathPart::Normal(name.to_string_lossy().into_owned()),
    });
    (std::path::MAIN_SEPARATOR, parts.collect())
}

/// A path on disk.
#[derive(Clone, Debug)]
pub struct DiskPath {
    text: String,
    separator: char,
    parts: Vec<PathPart<String>>,
}

/// What contracts say of a [`DiskPath`]: its text as given, the separator of
/// the platform, and its parts.
pub struct PathView {
    pub text: Seq<char>,
    pub separator: char,
    pub parts: Seq<PathPart<Seq<char>>>,
}

impl View for DiskPath {
    type V = PathView;

    closed spec fn view(&self) -> PathView {
        PathView {
            text: self.text@,
            separator: self.separator,
            parts: parts_text(self.parts@),
        }
    }
}

impl PathView {
    /// Two paths lead to the same place when they have the same parts.
    pub open spec fn same_as(self, other: PathView) -> bool {
        self.parts == other.parts
    }

    /// Whether the path is `base`, or lies below it.
    pub open spec fn within(self, base: PathView) -> bool {
        base.parts.is_prefix_of(self.parts)
    }
}

fn same_part(a: &PathPart<String>, b: &PathPart<String>) -> (r: bool)
    ensures
        r == (a@ == b@),
{
    match (a, b) {
        (PathPart::Prefix(x), PathPart::Prefix(y)) => *x == *y,
        (PathPart::RootDir, PathPart::RootDir) => true,
        (PathPart::CurDir, PathPart::CurDir) => true,
        (PathPart::ParentDir, PathPart::ParentDir) => true,
        (PathPart::Normal(x), PathPart::Normal(y)) => *x == *y,
        _ => false,
    }
}

fn duplicate_part(part: &PathPart<String>) -> (r: PathPart<String>)
    ensures
        r@ == part@,
{
    match part {
        PathPart::Prefix(name) => PathPart::Prefix(name.clone()),
        PathPart::RootDir => PathPart::RootDir,
        PathPart::CurDir => PathPart::CurDir,
        PathPart::ParentDir => PathPart::ParentDir,
        PathPart::Normal(name) => PathPart::Normal(name.clone()),
    }
}

impl DiskPath {
    /// The path that `text` spells.
    pub fn new(text: String) -> (r: DiskPath)
        ensures
            r@.text == text@,
            parted(text@, r@.separator, r@.parts),
            portable(text@) ==> r@.parts == slash_parts(text@),
    {
        let (separator, parts) = split_path(&text);
        proof {
            if portable(text@) {
                portable_texts_are_divided_alike(text@, separator, parts_text(parts@));
            }
        }
        DiskPath { text, separator, parts }
    }

    /// The text of the path, as it was given.
    pub fn text(&self) -> (r: String)
        ensures
            r@ == self@.text,
    {
        self.text.clone()
    }

    /// Whether the two paths lead to the same place.
    pub fn is_same(&self, other: &DiskPath) -> (r: bool)
        ensures
            r == self@.same_as(other@),
            r == (self@.parts == other@.parts),
    {
        if self.parts.len() != other.parts.len() {
            assert(self@.parts.len() != other@.parts.len());
            return false;
        }
        let r = self.is_within(other);
        proof {
            if r {
                assert(self@.parts =~= other@.parts);
            }
        }
        r
    }

    /// Whether the path is `base`, or lies below it.
    pub fn is_within(&self, base: &DiskPath) -> (r: bool)
        ensures
            r == self@.within(base@),
            r == (base@.parts.len() <= self@.parts.len() && forall|i: int|
                0 <= i < base@.parts.len() ==> #[trigger] base@.parts[i] == self@.parts[i]),
    {
        if base.parts.len() > self.parts.len() {
            return false;
        }
        let mut i: usize = 0;
        while i < base.parts.len()
            invariant
                i <= base.parts@.len() <= self.parts@.len(),
                forall|j: int| 0 <= j < i ==> base@.parts[j] == self@.parts[j],
            decreases base.parts@.len() - i,
        {
            if !same_part(&base.parts[i], &self.parts[i]) {
                assert(base@.parts[i as int] != self@.parts[i as int]);
                assert(self@.parts.subrange(0, base@.parts.len() as int)[i as int]
                    == self@.parts[i as int]);
                return false;
            }
            i += 1;
        }
        assert(base@.parts =~= self@.parts.subrange(0, base@.parts.len() as int));
        true
    }

    /// The same path once more.
    pub fn duplicate(&self) -> (r: DiskPath)
        ensures
            r@ == self@,
    {
        let mut parts: Vec<PathPart<String>> = Vec::new();
        let mut i: usize = 0;
        while i < self.parts.len()
            invariant
                i <= self.parts@.len(),
                parts_text(parts@) == parts_text(self.parts@).take(i as int),
            decreases self.parts@.len() - i,
        {
            let part = duplicate_part(&self.parts[i]);
            let ghost before = parts@;
            parts.push(part);
            assert(parts_text(parts@) =~= parts_text(before).push(part@));
            assert(parts_text(self.parts@).take(i + 1) =~= parts_text(self.parts@).take(
                i as int,
            ).push(part@));
            i += 1;
        }
        assert(parts_text(self.parts@).take(i as int) =~= parts_text(self.parts@));
        DiskPath { text: self.text.clone(), separator: self.separator, parts }
    }
}

/// A portable text is divided at its slashes on every platform.
pub proof fn portable_texts_are_divided_alike(
    text: Seq<char>,
    separator: char,
    parts: Seq<PathPart<Seq<char>>>,
)
    requires
        portable(text),
        parted(text, separator, parts),
    ensures
        parts == slash_parts(text),
{
    assert(with_slashes(text) =~= text) by {
        assert forall|i: int| 0 <= i < text.len() implies text[i] != '\\' by {
            assert(text.contains(text[i]));
        }
    }
}

pub(crate) proof fn lemma_segments_never_empty(text: Seq<char>)
    ensures
        segments(text).len() > 0,
    decreases text.len(),
{
    if text.len() > 0 {
        lemma_segments_never_empty(text.drop_last());
    }
}

pub(crate) proof fn lemma_segments_of_joined(base: Seq<char>, rest: Seq<char>)
    ensures
        segments(base.push('/') + rest) == segments(base) + segments(rest),
    decreases rest.len(),
{
    let whole = base.push('/') + rest;
    lemma_segments_never_empty(rest);
    if rest.len() == 0 {
        assert(whole =~= base.push('/'));
        assert(whole.drop_last() =~= base);
        assert(segments(whole) =~= segments(base) + segments(rest));
    } else {
        lemma_segments_of_joined(base, rest.drop_last());
        lemma_segments_never_empty(rest.drop_last());
        assert(whole.drop_last() =~= base.push('/') + rest.drop_last());
        assert(segments(whole) =~= segments(base) + segments(rest));
    }
}

proof fn lemma_slash_parts_of_joined(directory: Seq<char>, rest: Seq<char>)
    requires
        directory.len() > 0,
    ensures
        slash_parts(directory).is_prefix_of(slash_parts(directory.push('/') + rest)),
{
    let whole = directory.push('/') + rest;
    let keep = |s: Seq<char>| counts(s);
    let name = |s: Seq<char>| part_of(s);
    lemma_segments_of_joined(directory, rest);
    lemma_segments_never_empty(directory);
    Seq::filter_distributes_over_add(segments(directory), segments(rest), keep);
    let first = segments(directory).filter(keep);
    let second = segments(rest).filter(keep);
    assert((first + second).map_values(name) =~= first.map_values(name) + second.map_values(name));
    assert(whole[0] == directory[0]);
    assert(segments(whole)[0] == segments(directory)[0]);
    assert(slash_parts(whole) =~= slash_parts(directory) + second.map_values(name));
    assert(slash_parts(whole).subrange(0, slash_parts(directory).len() as int)
        =~= slash_parts(directory));
}

/// What is spelled as a path below a directory lies within that directory: a
/// separator of the platform stands between the directory and the rest. Drives
/// and shares are left out.
pub proof fn paths_below_a_directory_are_within_it(
    base: DiskPath,
    path: DiskPath,
    directory: Seq<char>,
    between: char,
    rest: Seq<char>,
)
    requires
        directory.len() > 0,
        base@.separator == path@.separator,
        parted(directory, base@.separator, base@.parts),
        parted(directory.push(between) + rest, path@.separator, path@.parts),
        between == '/' || (between == '\\' && base@.separator != '/'),
        base@.separator == '/' || !(names_drive(directory) || begins_doubly(
            with_slashes(directory.push(between) + rest),
        )),
    ensures
        path@.within(base@),
{
    let whole = directory.push(between) + rest;
    if base@.separator == '/' {
        lemma_slash_parts_of_joined(directory, rest);
    } else {
        lemma_slash_parts_of_joined(with_slashes(directory), with_slashes(rest));
        assert(with_slashes(whole) =~= with_slashes(directory).push('/') + with_slashes(rest));
        assert(whole[0] == directory[0]);
        assert(directory.len() >= 2 ==> whole[1] == directory[1]);
        assert(!names_drive(whole));
        assert(with_slashes(directory).len() == directory.len());
        if begins_doubly(with_slashes(directory)) {
            assert(with_slashes(whole)[0] == with_slashes(directory)[0]);
            assert(with_slashes(whole)[1] == with_slashes(directory)[1]);
        }
    }
}

} // verus!
