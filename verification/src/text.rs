//! Text that the archive is keyed by: decimal ids, reference names and the
//! search for a phrase in a message.
use vstd::prelude::*;

verus! {

/// Whether `part` occurs in `text` as a run of consecutive characters.
pub open spec fn occurs_in(part: Seq<char>, text: Seq<char>) -> bool {
    exists|i: int| occurs_at(part, text, i)
}

/// Whether `part` occurs in `text` starting at index `i`.
pub open spec fn occurs_at(part: Seq<char>, text: Seq<char>, i: int) -> bool {
    0 <= i && i + part.len() <= text.len() && text.subrange(i, i + part.len()) == part
}

/// The characters of `s`, one per element.
fn characters(s: &str) -> (r: Vec<char>)
    ensures
        r@ == s@,
{
    let mut r: Vec<char> = Vec::new();
    for c in it: s.chars()
        invariant
            r@ == it.seq().take(it.index() as int),
            it.seq() == s@,
    {
        r.push(c);
    }
    r
}

/// Whether `part` starts at index `at` of `text`.
fn matches_at(part: &Vec<char>, text: &Vec<char>, at: usize) -> (r: bool)
    requires
        at + part@.len() <= text@.len(),
    ensures
        r == occurs_at(part@, text@, at as int),
{
    let length: usize = text.len();
    let mut k: usize = 0;
    while k < part.len()
        invariant
            length == text@.len(),
            k <= part@.len(),
            at + part@.len() <= text@.len(),
            forall|j: int| 0 <= j < k ==> part@[j] == text@[at + j],
        decreases part@.len() - k,
    {
        if part[k] != text[at + k] {
            proof {
                assert(text@.subrange(at as int, at + part@.len())[k as int] == text@[at + k]);
            }
            return false;
        }
        k += 1;
    }
    assert(text@.subrange(at as int, at + part@.len()) =~= part@);
    true
}

/// Tests whether the phrase `part` occurs anywhere in `text`.
pub fn mentions(text: &str, part: &str) -> (r: bool)
    ensures
        r == occurs_in(part@, text@),
{
    let text_chars = characters(text);
    let part_chars = characters(part);
    if part_chars.len() > text_chars.len() {
        return false;
    }
    let mut at: usize = 0;
    while at <= text_chars.len() - part_chars.len()
        invariant
            text_chars@ == text@,
            part_chars@ == part@,
            part@.len() <= text@.len(),
            at <= text@.len() - part@.len() + 1,
            forall|j: int| 0 <= j < at ==> !occurs_at(part@, text@, j),
        decreases text@.len() - part@.len() + 1 - at,
    {
        if matches_at(&part_chars, &text_chars, at) {
            return true;
        }
        if at == text_chars.len() - part_chars.len() {
            return false;
        }
        at += 1;
    }
    false
}

/// The character of the decimal digit `d`.
pub open spec fn digit(d: int) -> char {
    if d == 0 {
        '0'
    } else if d == 1 {
        '1'
    } else if d == 2 {
        '2'
    } else if d == 3 {
        '3'
    } else if d == 4 {
        '4'
    } else if d == 5 {
        '5'
    } else if d == 6 {
        '6'
    } else if d == 7 {
        '7'
    } else if d == 8 {
        '8'
    } else {
        '9'
    }
}

/// The decimal digits of a natural number, without leading zeros.
pub open spec fn digits(n: nat) -> Seq<char>
    decreases n,
{
    if n < 10 {
        seq![digit(n as int)]
    } else {
        digits(n / 10).push(digit((n % 10) as int))
    }
}

/// An integer in decimal, with a minus sign in front of a negative one.
pub open spec fn decimal(n: int) -> Seq<char> {
    if n < 0 {
        seq!['-'] + digits((-n) as nat)
    } else {
        digits(n as nat)
    }
}

/// The text of one decimal digit.
fn digit_text(d: u64) -> (r: &'static str)
    requires
        d < 10,
    ensures
        r@ == seq![digit(d as int)],
{
    proof {
        reveal_strlit("0");
        reveal_strlit("1");
        reveal_strlit("2");
        reveal_strlit("3");
        reveal_strlit("4");
        reveal_strlit("5");
        reveal_strlit("6");
        reveal_strlit("7");
        reveal_strlit("8");
        reveal_strlit("9");
    }
    match d {
        0 => "0",
        1 => "1",
        2 => "2",
        3 => "3",
        4 => "4",
        5 => "5",
        6 => "6",
        7 => "7",
        8 => "8",
        _ => "9",
    }
}

/// Writes a natural number in decimal.
fn digits_text(n: u64) -> (r: String)
    ensures
        r@ == digits(n as nat),
    decreases n,
{
    if n < 10 {
        digit_text(n).to_owned()
    } else {
        let mut r = digits_text(n / 10);
        r.append(digit_text(n % 10));
        r
    }
}

/// Writes an integer in decimal.
pub fn decimal_text(n: i64) -> (r: String)
    ensures
        r@ == decimal(n as int),
{
    if n < 0 {
        let magnitude: u64 = (-(n + 1)) as u64 + 1;
        let mut r = "-".to_owned();
        r.append(digits_text(magnitude).as_str());
        proof {
            reveal_strlit("-");
        }
        assert(r@ =~= seq!['-'] + digits((-n) as nat));
        r
    } else {
        digits_text(n as u64)
    }
}

/// The name of the git ref that keeps the commits of archive record `id` alive.
pub open spec fn ref_name(id: int) -> Seq<char> {
    "refs/archived-worktrees/"@ + decimal(id)
}

/// Names the git ref that keeps the commits of archive record `id` alive.
pub fn archived_worktree_ref_name(id: i64) -> (r: String)
    ensures
        r@ == ref_name(id as int),
{
    let mut r = "refs/archived-worktrees/".to_owned();
    r.append(decimal_text(id).as_str());
    r
}

proof fn lemma_digits_shape(n: nat)
    ensures
        digits(n).len() > 0,
        forall|i: int| 0 <= i < digits(n).len() ==> '0' <= #[trigger] digits(n)[i] <= '9',
        n >= 10 ==> digits(n).len() > 1,
    decreases n,
{
    if n >= 10 {
        lemma_digits_shape(n / 10);
    }
}

proof fn lemma_digits_injective(a: nat, b: nat)
    requires
        digits(a) == digits(b),
    ensures
        a == b,
    decreases a,
{
    lemma_digits_shape(a);
    lemma_digits_shape(b);
    assert(digits(a).last() == digits(b).last());
    assert(digits(a).last() == digit((a % 10) as int));
    assert(digits(b).last() == digit((b % 10) as int));
    assert(a % 10 == b % 10);
    if a >= 10 {
        assert(b >= 10);
        assert(digits(a).drop_last() =~= digits(a / 10));
        assert(digits(b).drop_last() =~= digits(b / 10));
        lemma_digits_injective(a / 10, b / 10);
    }
}

/// Two integers with the same decimal text are the same integer.
pub proof fn decimal_is_injective(a: int, b: int)
    requires
        decimal(a) == decimal(b),
    ensures
        a == b,
{
    assert(decimal(a)[0] == decimal(b)[0]);
    if a >= 0 {
        lemma_digits_shape(a as nat);
        assert('0' <= digits(a as nat)[0]);
    }
    if b >= 0 {
        lemma_digits_shape(b as nat);
        assert('0' <= digits(b as nat)[0]);
    }
    if a < 0 {
        assert(decimal(a).skip(1) =~= digits((-a) as nat));
        assert(decimal(b).skip(1) =~= digits((-b) as nat));
        lemma_digits_injective((-a) as nat, (-b) as nat);
    } else {
        lemma_digits_injective(a as nat, b as nat);
    }
}

/// No two archive records share a git ref: the ref name determines the record.
pub proof fn ref_names_are_distinct(a: int, b: int)
    requires
        ref_name(a) == ref_name(b),
    ensures
        a == b,
{
    let prefix = "refs/archived-worktrees/"@;
    assert(ref_name(a).skip(prefix.len() as int) =~= decimal(a));
    assert(ref_name(b).skip(prefix.len() as int) =~= decimal(b));
    decimal_is_injective(a, b);
}

} // verus!
