//! Building and comparing text.

use vstd::prelude::*;
use vstd::string::StringExecFns;
use vstd::utf8::encode_utf8;
use vstd::utf8::encode_utf8_decode_utf8;

verus! {

/// `String::push` appends one character to the end of the string.
pub assume_specification[ String::push ](text: &mut String, ch: char)
    ensures
        final(text)@ == old(text)@.push(ch),
;

/// The view of optional text.
pub open spec fn optional_text(text: Option<String>) -> Option<Seq<char>> {
    match text {
        Some(s) => Some(s@),
        None => None,
    }
}

/// Copies optional text.
pub fn copy_text(text: &Option<String>) -> (copy: Option<String>)
    ensures
        optional_text(copy) == optional_text(*text),
{
    match text {
        Some(s) => Some(s.clone()),
        None => None,
    }
}

/// The character for a digit below ten.
pub open spec fn digit_char(digit: nat) -> char {
    (0x30 + digit) as u8 as char
}

/// A number in decimal, without sign or leading zeros.
pub open spec fn decimal(number: nat) -> Seq<char>
    decreases number,
{
    if number < 10 {
        seq![digit_char(number)]
    } else {
        decimal(number / 10).push(digit_char(number % 10))
    }
}

/// Writes a number in decimal.
pub fn decimal_text(number: u64) -> (text: String)
    ensures
        text@ == decimal(number as nat),
    decreases number,
{
    if number < 10 {
        let mut text = String::new();
        text.push((0x30 + number as u8) as char);
        assert(text@ =~= seq![digit_char(number as nat)]);
        text
    } else {
        let mut text = decimal_text(number / 10);
        text.push((0x30 + (number % 10) as u8) as char);
        text
    }
}

/// Whether two texts are the same, character by character.
pub fn same_text(one: &str, other: &str) -> (same: bool)
    ensures
        same == (one@ == other@),
{
    let a = one.as_bytes();
    let b = other.as_bytes();
    proof {
        encode_utf8_decode_utf8(one@);
        encode_utf8_decode_utf8(other@);
    }
    if a.len() != b.len() {
        return false;
    }
    let mut i: usize = 0;
    while i < a.len()
        invariant
            i <= a@.len(),
            a@.len() == b@.len(),
            a@ == encode_utf8(one@),
            b@ == encode_utf8(other@),
            forall|k: int| 0 <= k < i ==> a@[k] == b@[k],
        decreases a@.len() - i,
    {
        if a[i] != b[i] {
            return false;
        }
        i = i + 1;
    }
    assert(a@ =~= b@);
    true
}

/// A character with the Unicode property White_Space.
pub open spec fn is_white_space(c: char) -> bool {
    let code = c as u32;
    ||| 0x09 <= code <= 0x0d
    ||| code == 0x20
    ||| code == 0x85
    ||| code == 0xa0
    ||| code == 0x1680
    ||| 0x2000 <= code <= 0x200a
    ||| code == 0x2028
    ||| code == 0x2029
    ||| code == 0x202f
    ||| code == 0x205f
    ||| code == 0x3000
}

/// How many characters of white space `text` begins with.
pub open spec fn leading_space(text: Seq<char>) -> nat
    decreases text.len(),
{
    if text.len() > 0 && is_white_space(text.first()) {
        1 + leading_space(text.drop_first())
    } else {
        0
    }
}

/// How many characters of white space `text` ends with.
pub open spec fn trailing_space(text: Seq<char>) -> nat
    decreases text.len(),
{
    if text.len() > 0 && is_white_space(text.last()) {
        1 + trailing_space(text.drop_last())
    } else {
        0
    }
}

/// `text` without the white space at its two ends.
pub open spec fn trimmed(text: Seq<char>) -> Seq<char> {
    if leading_space(text) == text.len() {
        Seq::empty()
    } else {
        text.subrange(leading_space(text) as int, text.len() - trailing_space(text))
    }
}

/// Text that is white space throughout; empty text is.
pub open spec fn is_blank_text(text: Seq<char>) -> bool {
    forall|i: int| 0 <= i < text.len() ==> is_white_space(#[trigger] text[i])
}

/// `str::trim` returns the text without leading and trailing white space,
/// where white space is what has the Unicode property White_Space.
#[verifier::external_body]
pub(crate) fn trim(text: &str) -> (inner: &str)
    ensures
        inner@ == trimmed(text@),
{
    text.trim()
}

/// The white space that `text` begins with is white space, and what comes
/// after it is not.
pub proof fn lemma_leading_space(text: Seq<char>)
    ensures
        leading_space(text) <= text.len(),
        forall|i: int| 0 <= i < leading_space(text) ==> is_white_space(#[trigger] text[i]),
        leading_space(text) < text.len() ==> !is_white_space(text[leading_space(text) as int]),
    decreases text.len(),
{
    if text.len() > 0 && is_white_space(text.first()) {
        let rest = text.drop_first();
        lemma_leading_space(rest);
        assert forall|i: int| 0 <= i < leading_space(text) implies is_white_space(
            #[trigger] text[i],
        ) by {
            if i > 0 {
                assert(text[i] == rest[i - 1]);
            }
        }
        if leading_space(text) < text.len() {
            assert(text[leading_space(text) as int] == rest[leading_space(rest) as int]);
        }
    }
}

/// The white space that `text` ends with is white space, and what comes
/// before it is not.
pub proof fn lemma_trailing_space(text: Seq<char>)
    ensures
        trailing_space(text) <= text.len(),
        forall|i: int|
            text.len() - trailing_space(text) <= i < text.len() ==> is_white_space(
                #[trigger] text[i],
            ),
        trailing_space(text) < text.len() ==> !is_white_space(
            text[text.len() - 1 - trailing_space(text)],
        ),
    decreases text.len(),
{
    if text.len() > 0 && is_white_space(text.last()) {
        let rest = text.drop_last();
        lemma_trailing_space(rest);
        assert forall|i: int|
            text.len() - trailing_space(text) <= i < text.len() implies is_white_space(
            #[trigger] text[i],
        ) by {
            if i < text.len() - 1 {
                assert(text[i] == rest[i]);
            }
        }
        if trailing_space(text) < text.len() {
            assert(text[text.len() - 1 - trailing_space(text)] == rest[rest.len() - 1
                - trailing_space(rest)]);
        }
    }
}

/// Nothing is left of a text after trimming exactly when the text is white
/// space throughout.
pub proof fn law_only_blank_text_trims_to_nothing(text: Seq<char>)
    ensures
        (trimmed(text).len() == 0) == is_blank_text(text),
{
    lemma_leading_space(text);
    lemma_trailing_space(text);
    if is_blank_text(text) {
        if leading_space(text) < text.len() {
            assert(is_white_space(text[leading_space(text) as int]));
        }
    } else {
        let j = choose|j: int| 0 <= j < text.len() && !is_white_space(#[trigger] text[j]);
        assert(leading_space(text) <= j);
        assert(j < text.len() - trailing_space(text));
    }
}

/// What is left after trimming neither begins nor ends with white space.
pub proof fn law_trimmed_text_has_no_space_at_its_ends(text: Seq<char>)
    requires
        trimmed(text).len() > 0,
    ensures
        !is_white_space(trimmed(text).first()),
        !is_white_space(trimmed(text).last()),
{
    lemma_leading_space(text);
    lemma_trailing_space(text);
    law_only_blank_text_trims_to_nothing(text);
    let j = choose|j: int| 0 <= j < text.len() && !is_white_space(#[trigger] text[j]);
    assert(leading_space(text) <= j);
    assert(j < text.len() - trailing_space(text));
}

/// Whether `text` is white space throughout.
pub fn is_blank(text: &str) -> (blank: bool)
    ensures
        blank == is_blank_text(text@),
        blank == (trimmed(text@).len() == 0),
{
    proof {
        law_only_blank_text_trims_to_nothing(text@);
    }
    trim(text).is_empty()
}

} // verus!
