//! The pattern that an address is to begin with.

use crate::hex::is_hex_digit;
use crate::hex::is_lower_hex_digit;
use crate::hex::is_lower_hex_text;
use crate::text::is_blank;
use crate::text::lemma_trim_of_padded;
use crate::text::push_char;
use crate::text::trim;
use crate::text::trim_of;
use vstd::prelude::*;
use vstd::string::StrSliceExecFns;

verus! {

/// Every character of the text is one of `0-9`, `a-f` or `A-F`.
pub open spec fn is_hex_text(text: Seq<char>) -> bool {
    forall|i: int| 0 <= i < text.len() ==> is_hex_digit(#[trigger] text[i])
}

/// The lowercase form of a hexadecimal digit; any other character is left
/// as it is.
pub open spec fn lower_hex_digit(c: char) -> char {
    if 'A' <= c && c <= 'F' {
        ((c as u8) + 32) as char
    } else {
        c
    }
}

/// The text with each of `A-F` replaced by its lowercase form.
pub open spec fn normalized(text: Seq<char>) -> Seq<char> {
    Seq::new(text.len(), |i: int| lower_hex_digit(text[i]))
}

/// What parsing makes of a text: its lowercase form where every character
/// is a hexadecimal digit, nothing otherwise.
pub open spec fn parse_of(text: Seq<char>) -> Option<Seq<char>> {
    if is_hex_text(text) {
        Some(normalized(text))
    } else {
        None
    }
}

/// A text that holds any character other than a hexadecimal digit is
/// refused, wherever the character stands and whatever surrounds it.
pub proof fn lemma_foreign_character_is_refused(text: Seq<char>, at: int)
    requires
        0 <= at < text.len(),
        !is_hex_digit(text[at]),
    ensures
        parse_of(text) is None,
{
}

/// A pattern is made of lowercase hexadecimal digits only, as many as the
/// text it was parsed from.
pub proof fn lemma_parsed_is_lower_hex(text: Seq<char>)
    requires
        is_hex_text(text),
    ensures
        parse_of(text) == Some(normalized(text)),
        normalized(text).len() == text.len(),
        is_lower_hex_text(normalized(text)),
{
    assert forall|i: int| 0 <= i < normalized(text).len() implies is_lower_hex_digit(
        #[trigger] normalized(text)[i],
    ) by {
        assert(is_hex_digit(text[i]));
    }
}

/// Digits that are typed with white space before and after them, such as
/// the line break, are parsed as the digits alone.
pub proof fn lemma_typed_digits(before: Seq<char>, digits: Seq<char>, after: Seq<char>)
    requires
        is_blank(before),
        is_blank(after),
        is_hex_text(digits),
    ensures
        trim_of(before + digits + after) == digits,
        parse_of(trim_of(before + digits + after)) == Some(normalized(digits)),
{
    if digits.len() > 0 {
        assert(is_hex_digit(digits.first()));
        assert(is_hex_digit(digits.last()));
    }
    lemma_trim_of_padded(before, digits, after);
}

/// The pattern without digits is the beginning of every address.
pub proof fn lemma_empty_pattern_matches_all(pattern: Seq<char>, address: Seq<char>)
    requires
        pattern.len() == 0,
    ensures
        pattern.is_prefix_of(address),
{
}

/// An address that a parsed pattern is the beginning of has, in its first
/// places, the lowercase form of the text that was parsed, digit for digit.
pub proof fn lemma_match_begins_with_normalized(text: Seq<char>, address: Seq<char>)
    requires
        parse_of(text) matches Some(pattern) && pattern.is_prefix_of(address),
    ensures
        text.len() <= address.len(),
        address.subrange(0, text.len() as int) == normalized(text),
        forall|i: int| 0 <= i < text.len() ==> address[i] == lower_hex_digit(#[trigger] text[i]),
{
    let pattern = normalized(text);
    assert(pattern =~= address.subrange(0, pattern.len() as int));
    assert forall|i: int| 0 <= i < text.len() implies address[i] == lower_hex_digit(
        #[trigger] text[i],
    ) by {
        assert(address.subrange(0, pattern.len() as int)[i] == pattern[i]);
    }
}

/// The reason a text is refused as a pattern: one of its characters is no
/// hexadecimal digit.
#[derive(Debug, Clone, Copy, PartialEq, Eq)]
pub struct InvalidPattern {}

/// A prefix that addresses are searched for: lowercase hexadecimal digits,
/// possibly none.
#[derive(Debug)]
pub struct Pattern {
    text: String,
}

impl View for Pattern {
    type V = Seq<char>;

    closed spec fn view(&self) -> Seq<char> {
        self.text@
    }
}

/// Tells whether a character is a hexadecimal digit of either case.
pub fn hex_digit_char(c: char) -> (b: bool)
    ensures
        b == is_hex_digit(c),
{
    ('0' <= c && c <= '9') || ('a' <= c && c <= 'f') || ('A' <= c && c <= 'F')
}

/// Puts a hexadecimal digit into lowercase.
pub fn to_lower_hex_digit(c: char) -> (lower: char)
    ensures
        lower == lower_hex_digit(c),
        is_hex_digit(c) ==> is_lower_hex_digit(lower),
{
    if 'A' <= c && c <= 'F' {
        ((c as u8) + 32) as char
    } else {
        c
    }
}

impl Pattern {
    #[verifier::type_invariant]
    spec fn lower_hex(&self) -> bool {
        is_lower_hex_text(self.text@)
    }

    /// Accepts a text of hexadecimal digits of either case, the empty text
    /// too, and keeps it in lowercase. Any other text is refused.
    pub fn parse(input: &str) -> (parsed: Result<Pattern, InvalidPattern>)
        ensures
            parsed is Ok <==> is_hex_text(input@),
            parsed matches Ok(pattern) ==> parse_of(input@) == Some(pattern@),
    {
        let n: usize = input.unicode_len();
        let mut text = String::new();
        let mut i: usize = 0;
        while i < n
            invariant
                n == input@.len(),
                i <= n,
                text@.len() == i,
                forall|j: int| 0 <= j < i ==> is_hex_digit(#[trigger] input@[j]),
                forall|j: int| 0 <= j < i ==> #[trigger] text@[j] == lower_hex_digit(input@[j]),
            decreases n - i,
        {
            let c = input.get_char(i);
            if !hex_digit_char(c) {
                return Err(InvalidPattern {  });
            }
            push_char(&mut text, to_lower_hex_digit(c));
            i = i + 1;
        }
        assert(text@ =~= normalized(input@));
        Ok(Pattern { text })
    }

    /// Takes a line as it was typed: the white space at its two ends is cut
    /// off, the line break too, and what is left is parsed.
    pub fn parse_line(line: &str) -> (parsed: Result<Pattern, InvalidPattern>)
        ensures
            parsed is Ok <==> is_hex_text(trim_of(line@)),
            parsed matches Ok(pattern) ==> parse_of(trim_of(line@)) == Some(pattern@),
    {
        Pattern::parse(trim(line))
    }

    /// The digits of the pattern, all of them lowercase.
    pub fn as_str(&self) -> (text: &str)
        ensures
            text@ == self@,
            is_lower_hex_text(text@),
    {
        proof {
            use_type_invariant(self);
        }
        self.text.as_str()
    }

    /// The number of digits.
    pub fn len(&self) -> (n: usize)
        ensures
            n == self@.len(),
    {
        self.text.as_str().unicode_len()
    }

    /// Tells whether an address begins with the digits of this pattern.
    pub fn matches(&self, address: &str) -> (found: bool)
        ensures
            found == self@.is_prefix_of(address@),
    {
        let wanted = self.text.as_str();
        let n: usize = wanted.unicode_len();
        if address.unicode_len() < n {
            return false;
        }
        let mut i: usize = 0;
        while i < n
            invariant
                wanted@ == self@,
                n == wanted@.len(),
                n <= address@.len(),
                i <= n,
                forall|j: int| 0 <= j < i ==> wanted@[j] == #[trigger] address@[j],
            decreases n - i,
        {
            if wanted.get_char(i) != address.get_char(i) {
                return false;
            }
            i = i + 1;
        }
        assert(self@ =~= address@.subrange(0, self@.len() as int));
        true
    }
}

} // verus!
