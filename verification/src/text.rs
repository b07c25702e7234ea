//! Small tools for text: appending, trimming, numbers in decimal.

use vstd::prelude::*;
use vstd::string::StrSliceExecFns;

verus! {

/// `String::push` of the standard library: the character is appended at the
/// end of the string and nothing before it changes.
#[verifier::external_body]
pub(crate) fn push_char(s: &mut String, c: char)
    ensures
        final(s)@ == old(s)@.push(c),
{
    s.push(c);
}

/// Whether a character is white space: one of the 25 characters that
/// Unicode gives the property White_Space.
pub open spec fn is_white_space(c: char) -> bool {
    let code = c as u32;
    ||| 0x09 <= code <= 0x0d
    ||| code == 0x20
    ||| code == 0x85
    ||| code == 0xa0
    ||| code == 0x1680
    ||| 0x2000 <= code <= 0x200a
    ||| code == 0x2028
    ||| code == 0x2029
    ||| code == 0x202f
    ||| code == 0x205f
    ||| code == 0x3000
}

/// Tells whether a character is white space.
pub fn white_space_char(c: char) -> (b: bool)
    ensures
        b == is_white_space(c),
{
    let code: u32 = c as u32;
    (0x09 <= code && code <= 0x0d) || code == 0x20 || code == 0x85 || code == 0xa0 || code
        == 0x1680 || (0x2000 <= code && code <= 0x200a) || code == 0x2028 || code == 0x2029
        || code == 0x202f || code == 0x205f || code == 0x3000
}

/// The first place at or after `from` that holds no white space, or the
/// length of the text where there is none.
pub open spec fn first_kept(text: Seq<char>, from: int) -> int
    decreases text.len() - from,
{
    if 0 <= from < text.len() && is_white_space(text[from]) {
        first_kept(text, from + 1)
    } else {
        from
    }
}

/// The end of the last stretch without white space that ends at or before
/// `to`, and not before `floor`.
pub open spec fn last_kept(text: Seq<char>, floor: int, to: int) -> int
    decreases to - floor,
{
    if 0 <= floor < to <= text.len() && is_white_space(text[to - 1]) {
        last_kept(text, floor, to - 1)
    } else {
        to
    }
}

/// The text without the white space at its two ends.
pub open spec fn trim_of(text: Seq<char>) -> Seq<char> {
    let from = first_kept(text, 0);
    text.subrange(from, last_kept(text, from, text.len() as int))
}

/// Where the kept part begins: at or after `from`, with nothing but white
/// space in between, and not on white space unless the text has ended.
pub proof fn lemma_first_kept(text: Seq<char>, from: int)
    requires
        0 <= from <= text.len(),
    ensures
        from <= first_kept(text, from) <= text.len(),
        forall|k: int| from <= k < first_kept(text, from) ==> is_white_space(#[trigger] text[k]),
        first_kept(text, from) < text.len() ==> !is_white_space(text[first_kept(text, from)]),
    decreases text.len() - from,
{
    if from < text.len() && is_white_space(text[from]) {
        lemma_first_kept(text, from + 1);
    }
}

/// Where the kept part ends: between `floor` and `to`, with nothing but
/// white space after it, and not after white space unless it is empty.
pub proof fn lemma_last_kept(text: Seq<char>, floor: int, to: int)
    requires
        0 <= floor <= to <= text.len(),
    ensures
        floor <= last_kept(text, floor, to) <= to,
        forall|k: int| last_kept(text, floor, to) <= k < to ==> is_white_space(#[trigger] text[k]),
        floor < last_kept(text, floor, to) ==> !is_white_space(
            text[last_kept(text, floor, to) - 1],
        ),
    decreases to - floor,
{
    if floor < to && is_white_space(text[to - 1]) {
        lemma_last_kept(text, floor, to - 1);
    }
}

/// Trimming takes away white space only, and all of it at both ends: the
/// text is white space, then what is kept, then white space, and what is
/// kept neither begins nor ends with white space.
pub proof fn lemma_trim_of(text: Seq<char>)
    ensures
        ({
            let from = first_kept(text, 0);
            let to = last_kept(text, from, text.len() as int);
            &&& 0 <= from <= to <= text.len()
            &&& trim_of(text) == text.subrange(from, to)
            &&& forall|k: int| 0 <= k < from ==> is_white_space(#[trigger] text[k])
            &&& forall|k: int| to <= k < text.len() ==> is_white_space(#[trigger] text[k])
            &&& trim_of(text).len() > 0 ==> !is_white_space(trim_of(text).first())
                && !is_white_space(trim_of(text).last())
        }),
{
    lemma_first_kept(text, 0);
    lemma_last_kept(text, first_kept(text, 0), text.len() as int);
}

/// Every character of the text is white space.
pub open spec fn is_blank(text: Seq<char>) -> bool {
    forall|i: int| 0 <= i < text.len() ==> is_white_space(#[trigger] text[i])
}

/// A text that neither begins nor ends with white space, with white space
/// put before and after it, is trimmed back to itself.
pub proof fn lemma_trim_of_padded(before: Seq<char>, kept: Seq<char>, after: Seq<char>)
    requires
        is_blank(before),
        is_blank(after),
        kept.len() > 0 ==> !is_white_space(kept.first()) && !is_white_space(kept.last()),
    ensures
        trim_of(before + kept + after) == kept,
{
    let text = before + kept + after;
    let from = first_kept(text, 0);
    let to = last_kept(text, from, text.len() as int);
    lemma_trim_of(text);
    assert forall|k: int| 0 <= k < text.len() implies text[k] == (if k < before.len() {
        before[k]
    } else if k < before.len() + kept.len() {
        kept[k - before.len()]
    } else {
        after[k - before.len() - kept.len()]
    }) by {}
    if kept.len() > 0 {
        let first = before.len() as int;
        let last = before.len() + kept.len() - 1;
        assert(text[first] == kept.first());
        assert(text[last] == kept.last());
        if from < first {
            assert(is_white_space(before[from]));
        }
        if to <= last {
            assert(is_white_space(text[last]));
        }
        if to > last + 1 {
            assert(is_white_space(after[to - 1 - before.len() - kept.len()]));
        }
        assert(text.subrange(from, to) =~= kept);
    } else {
        if from < text.len() {
            assert(is_white_space(text[from]));
        }
        assert(text.subrange(from, to) =~= kept);
    }
}

/// Cuts the white space off both ends of a text.
pub fn trim(text: &str) -> (kept: &str)
    ensures
        kept@ == trim_of(text@),
{
    let n: usize = text.unicode_len();
    let mut from: usize = 0;
    while from < n && white_space_char(text.get_char(from))
        invariant
            n == text@.len(),
            from <= n,
            first_kept(text@, 0) == first_kept(text@, from as int),
        decreases n - from,
    {
        from = from + 1;
    }
    let mut to: usize = n;
    while from < to && white_space_char(text.get_char(to - 1))
        invariant
            n == text@.len(),
            from <= to <= n,
            last_kept(text@, from as int, n as int) == last_kept(text@, from as int, to as int),
        decreases to,
    {
        to = to - 1;
    }
    text.substring_char(from, to)
}

/// The character for a value below ten.
pub open spec fn decimal_digit(value: nat) -> char {
    (value + 48) as char
}

/// A number in decimal: no sign, no leading zero, `0` for zero.
pub open spec fn decimal(n: nat) -> Seq<char>
    decreases n,
{
    if n < 10 {
        seq![decimal_digit(n)]
    } else {
        decimal(n / 10).push(decimal_digit(n % 10))
    }
}

/// Appends a number in decimal to a text.
pub fn push_decimal(text: &mut String, n: u64)
    ensures
        final(text)@ == old(text)@ + decimal(n as nat),
    decreases n,
{
    if n >= 10 {
        push_decimal(text, n / 10);
    }
    let digit: u8 = (n % 10) as u8;
    push_char(text, (digit + 48) as char);
    proof {
        if n >= 10 {
            assert(old(text)@ + decimal(n as nat) =~= (old(text)@ + decimal((n / 10) as nat)).push(
                decimal_digit((n % 10) as nat),
            ));
        } else {
            assert(old(text)@ + decimal(n as nat) =~= old(text)@.push(decimal_digit(n as nat)));
        }
    }
}

/// A number in decimal.
pub fn to_decimal(n: u64) -> (text: String)
    ensures
        text@ == decimal(n as nat),
{
    let mut text = String::new();
    push_decimal(&mut text, n);
    assert(Seq::<char>::empty() + decimal(n as nat) =~= decimal(n as nat));
    text
}

} // verus!
