//! Where content is moved while a restore replaces it.
use vstd::prelude::*;

verus! {

/// The character that the platform puts between the parts of a path.
#[derive(Clone, Copy, Debug, PartialEq, Eq, Structural)]
pub enum Separator {
    Slash,
    Backslash,
}

impl Separator {
    /// The separator as a character.
    pub open spec fn character(self) -> char {
        match self {
            Separator::Slash => '/',
            Separator::Backslash => '\\',
        }
    }
}

/// The system's directory for temporary files, an absolute path.
#[derive(Debug, PartialEq, Eq)]
pub struct TempDir<S> {
    pub path: S,
    pub separator: Separator,
}

impl View for TempDir<String> {
    type V = TempDir<Seq<char>>;

    open spec fn view(&self) -> TempDir<Seq<char>> {
        TempDir { path: self.path@, separator: self.separator }
    }
}

/// `name` as an entry of the directory `base`: one separator stands between
/// them, unless `base` is empty or ends in one.
pub open spec fn joined(base: Seq<char>, separator: Separator, name: Seq<char>) -> Seq<char> {
    if base.len() == 0 || base.last() == '/' || base.last() == separator.character() {
        base + name
    } else {
        base.push(separator.character()) + name
    }
}

/// The name of a backup directory that `token` makes unique.
pub open spec fn backup_name(token: Seq<char>) -> Seq<char> {
    "zed-restore-backup-"@ + token
}

/// The place of a backup: a directory of its own, and the entry inside it
/// that the content is moved to.
#[derive(Debug, PartialEq, Eq)]
pub struct Backup<S> {
    /// The directory holding the moved content.
    pub dir: S,
    /// Where inside `dir` the content lives.
    pub target: S,
}

impl View for Backup<String> {
    type V = Backup<Seq<char>>;

    open spec fn view(&self) -> Backup<Seq<char>> {
        Backup { dir: self.dir@, target: self.target@ }
    }
}

/// The backup place in `temp` that `token` makes unique.
pub open spec fn backup_at(temp: TempDir<Seq<char>>, token: Seq<char>) -> Backup<Seq<char>> {
    let dir = joined(temp.path, temp.separator, backup_name(token));
    Backup { dir, target: joined(dir, temp.separator, "worktree"@) }
}

/// The last character of `text`.
fn last_character(text: &str) -> (r: Option<char>)
    ensures
        r == (if text@.len() == 0 {
            None::<char>
        } else {
            Some(text@.last())
        }),
{
    let mut last: Option<char> = None;
    for c in it: text.chars()
        invariant
            it.seq() == text@,
            last == (if it.index() == 0 {
                None::<char>
            } else {
                Some(text@[it.index() - 1])
            }),
    {
        last = Some(c);
    }
    last
}

/// Adds `name` to the path `base`.
fn join(base: &str, separator: Separator, name: &str) -> (r: String)
    ensures
        r@ == joined(base@, separator, name@),
{
    let mut r = base.to_owned();
    match last_character(base) {
        None => {},
        Some(last) => {
            match separator {
                Separator::Slash => {
                    if last != '/' {
                        r.append("/");
                    }
                },
                Separator::Backslash => {
                    if last != '/' && last != '\\' {
                        r.append("\\");
                    }
                },
            }
        },
    }
    r.append(name);
    proof {
        reveal_strlit("/");
        reveal_strlit("\\");
    }
    assert(r@ =~= joined(base@, separator, name@));
    r
}

/// Places a backup in `temp` under the given token.
pub fn place_backup(temp: &TempDir<String>, token: &str) -> (r: Backup<String>)
    ensures
        r@ == backup_at(temp@, token@),
{
    let mut name = "zed-restore-backup-".to_owned();
    name.append(token);
    let dir = join(&temp.path, temp.separator, &name);
    let target = join(&dir, temp.separator, "worktree");
    Backup { dir, target }
}

/// Whether `c` is a hexadecimal digit in lower case.
pub open spec fn is_hex(c: char) -> bool {
    '0' <= c <= '9' || 'a' <= c <= 'f'
}

/// Whether `text` is a random (version 4) UUID in its hyphenated form.
pub open spec fn is_random_uuid(text: Seq<char>) -> bool {
    &&& text.len() == 36
    &&& forall|i: int|
        0 <= i < 36 ==> if i == 8 || i == 13 || i == 18 || i == 23 {
            #[trigger] text[i] == '-'
        } else {
            is_hex(text[i])
        }
    &&& text[14] == '4'
    &&& text[19] == '8' || text[19] == '9' || text[19] == 'a' || text[19] == 'b'
}

/// Draws a token with `uuid::Uuid::new_v4` and writes it with the `Display`
/// of `uuid::Uuid`. Believed of them: the text is the hyphenated lower-case
/// form of a version 4 UUID. Which one it is rests on chance, so nothing is
/// said of that, nor that two draws differ. Where the system has no random
/// bytes to give, the draw does not return.
#[verifier::external_body]
pub(crate) fn draw_token() -> (r: String)
    ensures
        is_random_uuid(r@),
{
    uuid::Uuid::new_v4().to_string()
}

} // verus!
