//! Hexadecimal text: what it means, and the calls that write and read it.

use vstd::prelude::*;
use vstd::utf8::encode_utf8;
use vstd::utf8::is_ascii_chars;
use vstd::utf8::is_ascii_chars_encode_utf8;

verus! {

/// The ASCII code of the lower-case hexadecimal digit for a value below 16.
pub open spec fn hex_digit(value: u8) -> u8 {
    if value < 10 {
        (0x30 + value) as u8
    } else {
        (0x61 + (value - 10)) as u8
    }
}

/// The value of a hexadecimal digit given by its ASCII code, upper or lower
/// case; `None` for any other byte.
pub open spec fn hex_value(digit: u8) -> Option<u8> {
    if 0x30 <= digit <= 0x39 {
        Some((digit - 0x30) as u8)
    } else if 0x41 <= digit <= 0x46 {
        Some((digit - 0x41 + 10) as u8)
    } else if 0x61 <= digit <= 0x66 {
        Some((digit - 0x61 + 10) as u8)
    } else {
        None
    }
}

/// Two lower-case digits per byte, the high half first.
pub open spec fn hex_encoded(bytes: Seq<u8>) -> Seq<char> {
    Seq::new(
        2 * bytes.len(),
        |i: int|
            if i % 2 == 0 {
                hex_digit(bytes[i / 2] / 16) as char
            } else {
                hex_digit(bytes[i / 2] % 16) as char
            },
    )
}

/// An even number of bytes, each of them a hexadecimal digit.
pub open spec fn is_hex_text(text: Seq<u8>) -> bool {
    &&& text.len() % 2 == 0
    &&& forall|i: int| 0 <= i < text.len() ==> (#[trigger] hex_value(text[i])) is Some
}

/// The bytes that hexadecimal text stands for; `None` where the text is not
/// hexadecimal.
pub open spec fn hex_decoded(text: Seq<u8>) -> Option<Seq<u8>> {
    if is_hex_text(text) {
        Some(
            Seq::new(
                text.len() / 2,
                |i: int| (16 * hex_value(text[2 * i])->0 + hex_value(text[2 * i + 1])->0) as u8,
            ),
        )
    } else {
        None
    }
}

/// `hex::encode` writes each byte as two digits taken from the table
/// `0123456789abcdef`, the high four bits first.
#[verifier::external_body]
pub(crate) fn encode(bytes: &[u8]) -> (text: String)
    ensures
        text@ == hex_encoded(bytes@),
{
    hex::encode(bytes)
}

/// `hex::decode` refuses input of odd length and input with a byte outside
/// `0-9`, `a-f` and `A-F`; otherwise it joins each pair of digits into one
/// byte, the first digit being the high half.
#[verifier::external_body]
pub(crate) fn decode(text: &[u8]) -> (bytes: Option<Vec<u8>>)
    ensures
        match bytes {
            Some(decoded) => hex_decoded(text@) == Some(decoded@),
            None => hex_decoded(text@) is None,
        },
{
    match hex::decode(text) {
        Ok(decoded) => Some(decoded),
        Err(_) => None,
    }
}

/// Encoded text is plain ASCII: in UTF-8 it takes one byte per digit.
pub proof fn lemma_encoded_is_ascii(bytes: Seq<u8>)
    ensures
        is_ascii_chars(hex_encoded(bytes)),
        encode_utf8(hex_encoded(bytes)).len() == 2 * bytes.len(),
        forall|i: int|
            0 <= i < 2 * bytes.len() ==> #[trigger] encode_utf8(hex_encoded(bytes))[i]
                == hex_encoded(bytes)[i] as u8,
{
    let text = hex_encoded(bytes);
    assert forall|i: int| 0 <= i < text.len() implies '\0' <= #[trigger] text[i] <= '\u{7f}' by {
        let half = if i % 2 == 0 {
            bytes[i / 2] / 16
        } else {
            bytes[i / 2] % 16
        };
        assert(half < 16);
        assert(hex_digit(half) < 0x80);
    }
    is_ascii_chars_encode_utf8(text);
}

/// Reading back what was written gives the bytes that were written.
pub proof fn lemma_hex_round_trip(bytes: Seq<u8>)
    ensures
        hex_decoded(encode_utf8(hex_encoded(bytes))) == Some(bytes),
{
    lemma_encoded_is_ascii(bytes);
    let text = encode_utf8(hex_encoded(bytes));
    assert forall|i: int| 0 <= i < text.len() implies (#[trigger] hex_value(text[i])) is Some by {
        let half = if i % 2 == 0 {
            bytes[i / 2] / 16
        } else {
            bytes[i / 2] % 16
        };
        assert(half < 16);
        assert(text[i] == hex_encoded(bytes)[i] as u8);
        assert(hex_encoded(bytes)[i] == hex_digit(half) as char);
        assert(hex_digit(half) as char as u8 == hex_digit(half));
    }
    assert(is_hex_text(text));
    let decoded = hex_decoded(text)->0;
    assert(decoded.len() == bytes.len());
    assert forall|i: int| 0 <= i < bytes.len() implies decoded[i] == bytes[i] by {
        let high = bytes[i] / 16;
        let low = bytes[i] % 16;
        assert(text[2 * i] == hex_encoded(bytes)[2 * i] as u8);
        assert(text[2 * i + 1] == hex_encoded(bytes)[2 * i + 1] as u8);
        assert((2 * i) % 2 == 0 && (2 * i) / 2 == i);
        assert((2 * i + 1) % 2 == 1 && (2 * i + 1) / 2 == i);
        assert(hex_encoded(bytes)[2 * i] == hex_digit(high) as char);
        assert(hex_encoded(bytes)[2 * i + 1] == hex_digit(low) as char);
        assert(hex_digit(high) as char as u8 == hex_digit(high));
        assert(hex_digit(low) as char as u8 == hex_digit(low));
        assert(hex_value(hex_digit(high)) == Some(high));
        assert(hex_value(hex_digit(low)) == Some(low));
    }
    assert(decoded =~= bytes);
}

} // verus!
