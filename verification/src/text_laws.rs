//! What numbers, ref names and phrases have to be like.
use vstd::prelude::*;

#[allow(unused_imports)]
use crate::text::{decimal, digit, digits, occurs_at, occurs_in, ref_name};

verus! {

/// The number that a run of decimal digits stands for.
pub open spec fn number_read(text: Seq<char>) -> int
    decreases text.len(),
{
    if text.len() == 0 {
        0
    } else {
        10 * number_read(text.drop_last()) + (text.last() as int - '0' as int)
    }
}

/// Whether `text` is a run of decimal digits without a leading zero, or a
/// single zero.
pub open spec fn is_numeral(text: Seq<char>) -> bool {
    &&& text.len() > 0
    &&& forall|i: int| 0 <= i < text.len() ==> '0' <= #[trigger] text[i] <= '9'
    &&& text.len() > 1 ==> text[0] != '0'
}

proof fn lemma_digits_read_back(n: nat)
    ensures
        is_numeral(digits(n)),
        number_read(digits(n)) == n,
        n > 0 ==> digits(n)[0] != '0',
    decreases n,
{
    reveal_with_fuel(number_read, 2);
    if n < 10 {
        assert(digits(n).drop_last() =~= Seq::empty());
    } else {
        lemma_digits_read_back(n / 10);
        assert(digits(n).drop_last() =~= digits(n / 10));
        assert(digits(n)[0] == digits(n / 10)[0]);
    }
}

/// A decimal text reads back as the number that it was written for: a minus
/// sign stands in front of just the negative ones, and then comes a numeral.
pub proof fn decimals_read_back(n: int)
    ensures
        n >= 0 ==> is_numeral(decimal(n)) && number_read(decimal(n)) == n,
        n < 0 ==> {
            &&& decimal(n).len() > 0
            &&& decimal(n)[0] == '-'
            &&& is_numeral(decimal(n).skip(1))
            &&& number_read(decimal(n).skip(1)) == -n
        },
{
    if n >= 0 {
        lemma_digits_read_back(n as nat);
    } else {
        lemma_digits_read_back((-n) as nat);
        assert(decimal(n).skip(1) =~= digits((-n) as nat));
    }
}

/// A ref name is one fixed prefix, and then the id of the record, which can be
/// read back from it.
pub proof fn ref_names_hold_the_id(id: int)
    ensures
        ({
            let prefix = "refs/archived-worktrees/"@;
            let rest = ref_name(id).skip(prefix.len() as int);
            &&& ref_name(id) == prefix + rest
            &&& id >= 0 ==> is_numeral(rest) && number_read(rest) == id
            &&& id < 0 ==> {
                &&& rest.len() > 0
                &&& rest[0] == '-'
                &&& is_numeral(rest.skip(1))
                &&& number_read(rest.skip(1)) == -id
            }
        }),
{
    decimals_read_back(id);
    let prefix = "refs/archived-worktrees/"@;
    assert(ref_name(id).skip(prefix.len() as int) =~= decimal(id));
}

/// A phrase is found wherever it stands in a text.
pub proof fn phrases_are_found_wherever_they_stand(
    before: Seq<char>,
    phrase: Seq<char>,
    behind: Seq<char>,
)
    ensures
        occurs_in(phrase, before + phrase + behind),
{
    let text = before + phrase + behind;
    let at = before.len() as int;
    assert(text.subrange(at, at + phrase.len()) =~= phrase);
    assert(occurs_at(phrase, text, at));
}

/// A phrase that is found stands in the text, between what comes before it and
/// what comes behind it.
pub proof fn only_phrases_that_stand_there_are_found(phrase: Seq<char>, text: Seq<char>)
    requires
        occurs_in(phrase, text),
    ensures
        exists|before: Seq<char>, behind: Seq<char>| text == #[trigger] (before + phrase + behind),
{
    let at = choose|i: int| occurs_at(phrase, text, i);
    let before = text.take(at);
    let behind = text.skip(at + phrase.len());
    assert forall|k: int| at <= k < at + phrase.len() implies text[k] == phrase[k - at] by {
        assert(text.subrange(at, at + phrase.len())[k - at] == text[k]);
    }
    assert(text =~= before + phrase + behind);
}

} // verus!
