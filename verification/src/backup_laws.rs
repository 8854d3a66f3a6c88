//! Where a backup lies.
use vstd::prelude::*;

#[allow(unused_imports)]
use crate::backup::{backup_at, backup_name, is_random_uuid, joined, Separator, TempDir};

verus! {

/// Whether `entry` is the entry `name` of the directory `dir`: the separator of
/// the platform stands between them, unless `dir` already ends in one.
pub open spec fn is_entry_of(
    entry: Seq<char>,
    dir: Seq<char>,
    separator: Separator,
    name: Seq<char>,
) -> bool {
    match separator {
        Separator::Slash => if dir.len() > 0 && dir.last() != '/' {
            entry == dir + seq!['/'] + name
        } else {
            entry == dir + name
        },
        Separator::Backslash => if dir.len() > 0 && dir.last() != '/' && dir.last() != '\\' {
            entry == dir + seq!['\\'] + name
        } else {
            entry == dir + name
        },
    }
}

/// The directory of a backup is an entry of the directory for temporary files,
/// whose name ends in the whole token, and the content goes to the entry
/// `worktree` of that very directory.
pub proof fn backups_lie_in_their_own_directory(temp: TempDir<Seq<char>>, token: Seq<char>)
    ensures
        ({
            let backup = backup_at(temp, token);
            &&& is_entry_of(
                backup.dir,
                temp.path,
                temp.separator,
                "zed-restore-backup-"@ + token,
            )
            &&& is_entry_of(backup.target, backup.dir, temp.separator, "worktree"@)
        }),
{
    let name = backup_name(token);
    let dir = joined(temp.path, temp.separator, name);
    assert(temp.path.push(temp.separator.character()) =~= temp.path + seq![
        temp.separator.character(),
    ]);
    assert(dir.push(temp.separator.character()) =~= dir + seq![temp.separator.character()]);
}

/// Backups with different tokens have different directories.
pub proof fn backups_with_different_tokens_are_apart(
    temp: TempDir<Seq<char>>,
    a: Seq<char>,
    b: Seq<char>,
)
    requires
        a != b,
    ensures
        backup_at(temp, a).dir != backup_at(temp, b).dir,
        backup_at(temp, a).target != backup_at(temp, b).target || backup_at(temp, a).dir.len()
            != backup_at(temp, b).dir.len(),
{
    let prefix = "zed-restore-backup-"@;
    let short = joined(temp.path, temp.separator, Seq::empty());
    let n = (short + prefix).len() as int;
    let worktree = "worktree"@;
    let x = backup_at(temp, a);
    let y = backup_at(temp, b);
    assert(x.dir =~= short + prefix + a);
    assert(y.dir =~= short + prefix + b);
    assert(x.dir.skip(n) =~= a);
    assert(y.dir.skip(n) =~= b);
    if x.dir.len() == y.dir.len() && x.target == y.target {
        assert(x.dir =~= x.target.take(x.dir.len() as int));
        assert(y.dir =~= y.target.take(y.dir.len() as int));
    }
}

/// Whether `text` has `length` characters, each a lower-case hexadecimal digit.
pub open spec fn is_hex_run(text: Seq<char>, length: int) -> bool {
    text.len() == length && forall|i: int|
        0 <= i < length ==> '0' <= #[trigger] text[i] <= '9' || 'a' <= text[i] <= 'f'
}

/// A token is five runs of hexadecimal digits with hyphens between them. The
/// third begins with the version, the fourth with the variant. It can stand in
/// a path as a name, since it has no separator.
pub proof fn tokens_are_hyphenated_runs_of_digits(token: Seq<char>)
    requires
        is_random_uuid(token),
    ensures
        token.len() == 36,
        is_hex_run(token.subrange(0, 8), 8),
        is_hex_run(token.subrange(9, 13), 4),
        is_hex_run(token.subrange(14, 18), 4),
        is_hex_run(token.subrange(19, 23), 4),
        is_hex_run(token.subrange(24, 36), 12),
        token[8] == '-' && token[13] == '-' && token[18] == '-' && token[23] == '-',
        token[14] == '4',
        token[19] == '8' || token[19] == '9' || token[19] == 'a' || token[19] == 'b',
        !token.contains('/') && !token.contains('\\'),
{
    assert forall|i: int| 0 <= i < 36 && i != 8 && i != 13 && i != 18 && i != 23 implies '0'
        <= #[trigger] token[i] <= '9' || 'a' <= token[i] <= 'f' by {}
}

} // verus!
