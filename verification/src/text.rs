//! Text building blocks: decimal numerals, substring search and quoting.
use vstd::prelude::*;
use vstd::string::*;

verus! {

/// The character of a decimal digit.
pub open spec fn digit(d: nat) -> char {
    if d == 0 {
        '0'
    } else if d == 1 {
        '1'
    } else if d == 2 {
        '2'
    } else if d == 3 {
        '3'
    } else if d == 4 {
        '4'
    } else if d == 5 {
        '5'
    } else if d == 6 {
        '6'
    } else if d == 7 {
        '7'
    } else if d == 8 {
        '8'
    } else {
        '9'
    }
}

/// The decimal numeral of `n`, without leading zeros.
pub open spec fn decimal(n: nat) -> Seq<char>
    decreases n,
{
    if n < 10 {
        seq![digit(n)]
    } else {
        decimal(n / 10).push(digit(n % 10))
    }
}

/// `needle` stands somewhere in `text` without a gap.
pub open spec fn contains(text: Seq<char>, needle: Seq<char>) -> bool {
    exists|at: int|
        #![trigger text.subrange(at, at + needle.len())]
        0 <= at && at + needle.len() <= text.len() && text.subrange(at, at + needle.len())
            == needle
}

fn digit_text(d: u64) -> (r: &'static str)
    requires
        d < 10,
    ensures
        r@ == seq![digit(d as nat)],
{
    proof {
        reveal_strlit("0");
        reveal_strlit("1");
        reveal_strlit("2");
        reveal_strlit("3");
        reveal_strlit("4");
        reveal_strlit("5");
        reveal_strlit("6");
        reveal_strlit("7");
        reveal_strlit("8");
        reveal_strlit("9");
    }
    if d == 0 {
        "0"
    } else if d == 1 {
        "1"
    } else if d == 2 {
        "2"
    } else if d == 3 {
        "3"
    } else if d == 4 {
        "4"
    } else if d == 5 {
        "5"
    } else if d == 6 {
        "6"
    } else if d == 7 {
        "7"
    } else if d == 8 {
        "8"
    } else {
        "9"
    }
}

/// Appends the decimal numeral of `n`.
pub fn push_decimal(out: &mut String, n: u64)
    ensures
        final(out)@ == old(out)@ + decimal(n as nat),
    decreases n,
{
    if n >= 10 {
        push_decimal(out, n / 10);
    }
    out.append(digit_text(n % 10));
}

/// Whether `needle` occurs in `text`, by `str::contains`: a pattern string matches where
/// it equals a sub-slice of the text.
#[verifier::external_body]
pub(crate) fn str_contains(text: &str, needle: &str) -> (r: bool)
    ensures
        r == contains(text@, needle@),
{
    text.contains(needle)
}

/// The text that the `Debug` implementation of `str` gives: the string in double quotes,
/// with the characters escaped that it escapes.
pub uninterp spec fn quoted(text: Seq<char>) -> Seq<char>;

/// Quotes `text` with the `Debug` implementation of `str`. Only that the result depends
/// on the text alone is claimed; which characters are escaped is left unsaid.
#[verifier::external_body]
pub(crate) fn quote(text: &str) -> (r: String)
    ensures
        r@ == quoted(text@),
{
    format!("{:?}", text)
}

/// A text contains what it starts with.
pub proof fn lemma_contains_prefix(needle: Seq<char>, rest: Seq<char>)
    ensures
        contains(needle + rest, needle),
{
    let start: int = 0;
    assert((needle + rest).subrange(start, start + needle.len()) =~= needle);
}

/// What a part of a text contains, the text contains.
pub proof fn lemma_contains_suffix(head: Seq<char>, tail: Seq<char>, needle: Seq<char>)
    requires
        contains(tail, needle),
    ensures
        contains(head + tail, needle),
{
    let at: int = choose|at: int|
        #![trigger tail.subrange(at, at + needle.len())]
        0 <= at && at + needle.len() <= tail.len() && tail.subrange(at, at + needle.len())
            == needle;
    let moved: int = head.len() + at;
    assert((head + tail).subrange(moved, moved + needle.len()) =~= needle);
}

/// The number that a row of decimal digits denotes.
pub open spec fn numeral_value(digits: Seq<char>) -> int
    decreases digits.len(),
{
    if digits.len() == 0 {
        0
    } else {
        10 * numeral_value(digits.drop_last()) + (digits.last() as int - '0' as int)
    }
}

/// A decimal numeral denotes its number, is made of digits, and starts with a zero for zero
/// only.
pub proof fn law_numeral_denotes_its_number(n: nat)
    ensures
        numeral_value(decimal(n)) == n,
        decimal(n).len() > 0,
        forall|i: int|
            0 <= i < decimal(n).len() ==> '0' as int <= (#[trigger] decimal(n)[i]) as int <= '9' as int,
        decimal(n)[0] == '0' ==> n == 0,
    decreases n,
{
    if n < 10 {
        assert(decimal(n).drop_last() =~= Seq::empty());
        reveal_with_fuel(numeral_value, 2);
    } else {
        law_numeral_denotes_its_number(n / 10);
        assert(decimal(n).drop_last() =~= decimal(n / 10));
        assert(decimal(n)[0] == decimal(n / 10)[0]);
    }
}

/// Different numbers have different numerals.
pub proof fn law_numerals_differ(m: nat, n: nat)
    requires
        decimal(m) == decimal(n),
    ensures
        m == n,
{
    law_numeral_denotes_its_number(m);
    law_numeral_denotes_its_number(n);
}

/// `text` is `before`, then `needle`, then `after`.
pub open spec fn is_split(
    text: Seq<char>,
    before: Seq<char>,
    needle: Seq<char>,
    after: Seq<char>,
) -> bool {
    text == before + needle + after
}

/// `needle` occurs in `text`: something stands before it and something after, be it nothing.
pub open spec fn occurs(needle: Seq<char>, text: Seq<char>) -> bool {
    exists|before: Seq<char>, after: Seq<char>| is_split(text, before, needle, after)
}

/// A text contains exactly what occurs in it.
pub proof fn law_contained_is_what_occurs(text: Seq<char>, needle: Seq<char>)
    ensures
        contains(text, needle) <==> occurs(needle, text),
{
    if contains(text, needle) {
        let at: int = choose|at: int|
            #![trigger text.subrange(at, at + needle.len())]
            0 <= at && at + needle.len() <= text.len() && text.subrange(at, at + needle.len())
                == needle;
        let before = text.subrange(0, at);
        let after = text.subrange(at + needle.len(), text.len() as int);
        assert(text =~= before + needle + after);
        assert(is_split(text, before, needle, after));
    }
    if occurs(needle, text) {
        let (before, after) = choose|before: Seq<char>, after: Seq<char>|
            is_split(text, before, needle, after);
        let at: int = before.len() as int;
        assert(text.subrange(at, at + needle.len()) =~= needle);
    }
}

/// A number is appended to what is there: it can be read off behind it.
pub proof fn law_appended_number_is_read_off(out: &mut String, n: u64)
    requires
        call_ensures(push_decimal, (out, n), ()),
    ensures
        final(out)@.len() > old(out)@.len(),
        final(out)@.take(old(out)@.len() as int) == old(out)@,
        numeral_value(final(out)@.skip(old(out)@.len() as int)) == n,
{
    law_numeral_denotes_its_number(n as nat);
    assert(final(out)@.take(old(out)@.len() as int) =~= old(out)@);
    assert(final(out)@.skip(old(out)@.len() as int) =~= decimal(n as nat));
}

} // verus!
