//! Which paths are the same, and which lie within which.
use vstd::prelude::*;

#[allow(unused_imports)]
use crate::path::{
    counts, leading_part, lemma_segments_never_empty, lemma_segments_of_joined, part_of, parted,
    portable, portable_texts_are_divided_alike, segments, slash_parts, PathPart,
};
use crate::path::PathView;

verus! {

/// Two paths are the same just when they have as many parts, and each part of
/// the one is that of the other, wherever it stands.
pub proof fn paths_are_the_same_when_all_parts_agree(a: PathView, b: PathView)
    ensures
        a.same_as(b) <==> a.parts.len() == b.parts.len() && forall|i: int|
            0 <= i < a.parts.len() ==> #[trigger] a.parts[i] == b.parts[i],
{
    if a.parts.len() == b.parts.len() && forall|i: int|
        0 <= i < a.parts.len() ==> #[trigger] a.parts[i] == b.parts[i] {
        assert(a.parts =~= b.parts);
    }
}

/// A path lies within a directory just when the parts of the directory are the
/// first parts of the path, every one of them.
pub proof fn paths_lie_within_what_they_begin_with(path: PathView, base: PathView)
    ensures
        path.within(base) <==> base.parts.len() <= path.parts.len() && forall|i: int|
            0 <= i < base.parts.len() ==> #[trigger] base.parts[i] == path.parts[i],
{
    let n = base.parts.len() as int;
    if base.parts.len() <= path.parts.len() {
        assert forall|i: int| 0 <= i < n implies path.parts.subrange(0, n)[i]
            == path.parts[i] by {}
        if forall|i: int| 0 <= i < n ==> #[trigger] base.parts[i] == path.parts[i] {
            assert(base.parts =~= path.parts.subrange(0, n));
        }
    }
}

/// Two paths that portable texts spell are the same just when the texts have
/// the same parts.
pub proof fn portable_texts_spell_the_same_path_by_their_parts(
    a: PathView,
    b: PathView,
)
    requires
        portable(a.text),
        portable(b.text),
        parted(a.text, a.separator, a.parts),
        parted(b.text, b.separator, b.parts),
    ensures
        a.same_as(b) <==> slash_parts(a.text) == slash_parts(b.text),
{
    portable_texts_are_divided_alike(a.text, a.separator, a.parts);
    portable_texts_are_divided_alike(b.text, b.separator, b.parts);
}

/// Whether `name` can be the name of an entry of a directory.
pub open spec fn is_name(name: Seq<char>) -> bool {
    name.len() > 0 && name != seq!['.'] && !name.contains('/')
}

proof fn lemma_one_segment(name: Seq<char>)
    requires
        !name.contains('/'),
    ensures
        segments(name) == seq![name],
    decreases name.len(),
{
    if name.len() == 0 {
        assert(name =~= Seq::empty());
    } else {
        let rest = name.drop_last();
        assert forall|i: int| 0 <= i < rest.len() implies rest[i] != '/' by {
            assert(name.contains(name[i]));
        }
        lemma_one_segment(rest);
        assert(name.contains(name.last()));
        assert(rest.push(name.last()) =~= name);
        assert(segments(name) =~= seq![name]);
    }
}

/// What the segments before an entry, and those behind it, come to.
spec fn named(segments: Seq<Seq<char>>) -> Seq<PathPart<Seq<char>>> {
    segments.filter(|s: Seq<char>| counts(s)).map_values(|s: Seq<char>| part_of(s))
}

proof fn lemma_named_adds_up(a: Seq<Seq<char>>, b: Seq<Seq<char>>)
    ensures
        named(a + b) == named(a) + named(b),
{
    let keep = |s: Seq<char>| counts(s);
    let name = |s: Seq<char>| part_of(s);
    Seq::filter_distributes_over_add(a, b, keep);
    assert((a.filter(keep) + b.filter(keep)).map_values(name) =~= a.filter(keep).map_values(name)
        + b.filter(keep).map_values(name));
}

proof fn lemma_parts_on_the_way(directory: Seq<char>, name: Seq<char>, rest: Seq<char>)
    requires
        is_name(name),
    ensures
        ({
            let whole = directory.push('/') + (name.push('/') + rest);
            let before = leading_part(directory.push('/')) + named(segments(directory));
            slash_parts(whole) == before.push(part_of(name)) + named(segments(rest))
        }),
{
    let inner = name.push('/') + rest;
    let whole = directory.push('/') + inner;
    let empty: Seq<char> = Seq::empty();
    lemma_one_segment(name);
    lemma_segments_of_joined(directory, inner);
    lemma_segments_of_joined(name, rest);
    lemma_segments_of_joined(directory, empty);
    lemma_segments_never_empty(directory);
    assert(directory.push('/') + empty =~= directory.push('/'));
    assert(segments(whole)[0] == segments(directory)[0]);
    assert(segments(directory.push('/'))[0] == segments(directory)[0]);
    assert(whole[0] == directory.push('/')[0]);
    assert(leading_part(whole) == leading_part(directory.push('/')));
    lemma_named_adds_up(segments(directory), segments(inner));
    lemma_named_adds_up(segments(name), segments(rest));
    let keep = |s: Seq<char>| counts(s);
    assert(seq![name].filter(keep) =~= seq![name]) by {
        reveal_with_fuel(Seq::filter, 2);
        assert(seq![name].drop_last() =~= Seq::empty());
        assert(seq![name].last() == name);
        assert(keep(name));
    }
    assert(named(seq![name]) =~= seq![part_of(name)]);
    let before = leading_part(directory.push('/')) + named(segments(directory));
    assert(slash_parts(whole) =~= before.push(part_of(name)) + named(segments(rest)));
}

/// A path in which a single name on the way is another one is another path,
/// whatever comes before it and behind it.
pub proof fn another_name_on_the_way_makes_another_path(
    directory: Seq<char>,
    name: Seq<char>,
    other: Seq<char>,
    rest: Seq<char>,
)
    requires
        is_name(name),
        is_name(other),
        name != other,
    ensures
        slash_parts(directory.push('/') + (name.push('/') + rest)) != slash_parts(
            directory.push('/') + (other.push('/') + rest),
        ),
{
    lemma_parts_on_the_way(directory, name, rest);
    lemma_parts_on_the_way(directory, other, rest);
    let before = leading_part(directory.push('/')) + named(segments(directory));
    let at = before.len() as int;
    let a = before.push(part_of(name)) + named(segments(rest));
    let b = before.push(part_of(other)) + named(segments(rest));
    assert(a[at] == part_of(name));
    assert(b[at] == part_of(other));
}

/// What a name without slashes adds to the parts of a path: a name adds itself,
/// `..` adds a step up, and `.` or nothing at all adds nothing.
pub open spec fn added_by(name: Seq<char>) -> Seq<PathPart<Seq<char>>> {
    if name.len() == 0 || name == seq!['.'] {
        Seq::empty()
    } else if name == seq!['.', '.'] {
        seq![PathPart::ParentDir]
    } else {
        seq![PathPart::Normal(name)]
    }
}

proof fn lemma_added(name: Seq<char>)
    requires
        !name.contains('/'),
    ensures
        named(segments(name)) == added_by(name),
{
    let keep = |s: Seq<char>| counts(s);
    lemma_one_segment(name);
    reveal_with_fuel(Seq::filter, 2);
    assert(seq![name].drop_last() =~= Seq::empty());
    assert(seq![name].last() == name);
    assert(keep(name) == counts(name));
    if counts(name) {
        assert(seq![name].filter(keep) =~= seq![name]);
    } else {
        assert(seq![name].filter(keep) =~= Seq::empty());
    }
    assert(named(seq![name]) =~= added_by(name));
}

/// A text without slashes is what it adds, and a single `.` is the present
/// directory.
pub proof fn texts_without_slashes_are_one_part(name: Seq<char>)
    requires
        !name.contains('/'),
    ensures
        name != seq!['.'] ==> slash_parts(name) == added_by(name),
        name == seq!['.'] ==> slash_parts(name) == seq![PathPart::<Seq<char>>::CurDir],
{
    lemma_one_segment(name);
    lemma_added(name);
    if name.len() > 0 {
        assert(name.contains(name[0]));
    }
    if name == seq!['.'] {
        assert(slash_parts(name) =~= seq![PathPart::<Seq<char>>::CurDir]);
    } else {
        assert(slash_parts(name) =~= added_by(name));
    }
}

/// What comes behind the last slash of a text is added to the parts of what
/// comes before it. A slash with nothing before it is the root.
pub proof fn the_last_name_is_added_to_the_parts(directory: Seq<char>, name: Seq<char>)
    requires
        !name.contains('/'),
    ensures
        directory.len() == 0 ==> slash_parts(directory.push('/') + name) == seq![
            PathPart::<Seq<char>>::RootDir,
        ] + added_by(name),
        directory.len() > 0 ==> slash_parts(directory.push('/') + name) == slash_parts(directory)
            + added_by(name),
{
    let whole = directory.push('/') + name;
    lemma_added(name);
    lemma_segments_of_joined(directory, name);
    lemma_segments_never_empty(directory);
    lemma_named_adds_up(segments(directory), segments(name));
    assert(whole[0] == directory.push('/')[0]);
    assert(segments(whole)[0] == segments(directory)[0]);
    if directory.len() == 0 {
        assert(directory =~= Seq::empty());
        lemma_one_segment(directory);
        lemma_added(directory);
        assert(slash_parts(whole) =~= seq![PathPart::<Seq<char>>::RootDir] + added_by(name));
    } else {
        assert(whole[0] == directory[0]);
        assert(slash_parts(whole) =~= slash_parts(directory) + added_by(name));
    }
}

/// Where the slash is the separator, a path has the parts of its text. So it
/// has elsewhere if the text has no backslash, does not begin with two slashes
/// and does not begin with a letter and a colon.
pub proof fn paths_have_the_parts_of_their_text(path: PathView)
    requires
        parted(path.text, path.separator, path.parts),
    ensures
        path.separator == '/' ==> path.parts == slash_parts(path.text),
        ({
            let text = path.text;
            &&& !text.contains('\\')
            &&& !(text.len() >= 2 && text[0] == '/' && text[1] == '/')
            &&& !(text.len() >= 2 && ('a' <= text[0] <= 'z' || 'A' <= text[0] <= 'Z') && text[1]
                == ':')
        }) ==> path.parts == slash_parts(path.text),
{
    if portable(path.text) {
        portable_texts_are_divided_alike(path.text, path.separator, path.parts);
    }
}

} // verus!
