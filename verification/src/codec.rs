//! Conversion between raw bytes and `0x`-prefixed lowercase hex text.

use vstd::prelude::*;
use crate::error::{fails_with, RollupError, RollupErrorKind};

verus! {

/// Holds of the characters `0-9`, `a-f` and `A-F`.
pub open spec fn is_hex_digit(c: char) -> bool {
    ('0' <= c && c <= '9') || ('a' <= c && c <= 'f') || ('A' <= c && c <= 'F')
}

/// Holds of the characters `0-9` and `a-f`.
pub open spec fn is_lower_hex_digit(c: char) -> bool {
    ('0' <= c && c <= '9') || ('a' <= c && c <= 'f')
}

/// The number a hex digit stands for; case does not matter.
pub open spec fn hex_value(c: char) -> int {
    if '0' <= c && c <= '9' {
        c as int - '0' as int
    } else if 'a' <= c && c <= 'f' {
        c as int - 'a' as int + 10
    } else {
        c as int - 'A' as int + 10
    }
}

/// The lowercase hex digit of a number below sixteen.
pub open spec fn nibble_char(n: int) -> char {
    if n == 0 {
        '0'
    } else if n == 1 {
        '1'
    } else if n == 2 {
        '2'
    } else if n == 3 {
        '3'
    } else if n == 4 {
        '4'
    } else if n == 5 {
        '5'
    } else if n == 6 {
        '6'
    } else if n == 7 {
        '7'
    } else if n == 8 {
        '8'
    } else if n == 9 {
        '9'
    } else if n == 10 {
        'a'
    } else if n == 11 {
        'b'
    } else if n == 12 {
        'c'
    } else if n == 13 {
        'd'
    } else if n == 14 {
        'e'
    } else {
        'f'
    }
}

/// Two lowercase hex digits per byte, high nibble first.
pub open spec fn hex_text(bytes: Seq<u8>) -> Seq<char> {
    Seq::new(
        2 * bytes.len(),
        |i: int|
            if i % 2 == 0 {
                nibble_char(bytes[i / 2] as int / 16)
            } else {
                nibble_char(bytes[i / 2] as int % 16)
            },
    )
}

/// Holds of an even number of hex digits.
pub open spec fn well_formed_hex(digits: Seq<char>) -> bool {
    digits.len() % 2 == 0 && forall|i: int| 0 <= i < digits.len() ==> is_hex_digit(#[trigger] digits[i])
}

/// The bytes that an even number of hex digits stand for.
pub open spec fn hex_bytes(digits: Seq<char>) -> Seq<u8> {
    Seq::new(
        digits.len() / 2,
        |i: int| (16 * hex_value(digits[2 * i]) + hex_value(digits[2 * i + 1])) as u8,
    )
}

/// Holds of text that begins with the characters `0x`.
pub open spec fn has_hex_prefix(text: Seq<char>) -> bool {
    text.len() >= 2 && text[0] == '0' && text[1] == 'x'
}

/// The encoding of `bytes`: the prefix `0x`, then two lowercase hex digits per byte.
pub open spec fn encode_spec(bytes: Seq<u8>) -> Seq<char> {
    seq!['0', 'x'] + hex_text(bytes)
}

/// The bytes that `text` decodes to, where it is `0x` followed by an even number of hex digits.
pub open spec fn decode_spec(text: Seq<char>) -> Option<Seq<u8>> {
    if has_hex_prefix(text) && well_formed_hex(text.skip(2)) {
        Some(hex_bytes(text.skip(2)))
    } else {
        None
    }
}

/// `hex::FromHexError`, the reason `hex::decode` gives for a refusal. Nothing is read from it.
#[verifier::external_type_specification]
#[verifier::external_body]
pub struct ExFromHexError(hex::FromHexError);

/// `hex::encode`: the lowercase hex digits of `data`, two per byte, high nibble first,
/// with no prefix.
#[verifier::external_body]
fn hex_encode(data: &[u8]) -> (digits: String)
    ensures
        digits@ == hex_text(data@),
{
    hex::encode(data)
}

/// `hex::decode`: succeeds exactly on an even number of hex digits of either case, and
/// then yields one byte per pair of digits, the first digit being the high nibble.
#[verifier::external_body]
fn hex_decode(digits: &str) -> (r: Result<Vec<u8>, hex::FromHexError>)
    ensures
        r.is_ok() <==> well_formed_hex(digits@),
        r matches Ok(bytes) ==> bytes@ == hex_bytes(digits@),
{
    hex::decode(digits)
}

/// Tells whether `text` begins with the characters `0x`.
pub fn starts_with_hex_prefix(text: &str) -> (r: bool)
    ensures
        r == has_hex_prefix(text@),
{
    text.unicode_len() >= 2 && text.get_char(0) == '0' && text.get_char(1) == 'x'
}

/// Encodes bytes as `0x`-prefixed lowercase hex text.
pub fn encode(bytes: &[u8]) -> (text: String)
    ensures
        text@ == encode_spec(bytes@),
        has_hex_prefix(text@),
        text@.len() == 2 + 2 * bytes@.len(),
{
    let digits = hex_encode(bytes);
    let text = String::from_str("0x").concat(digits.as_str());
    proof {
        reveal_strlit("0x");
        assert(text@ =~= encode_spec(bytes@));
    }
    text
}

/// Decodes `0x`-prefixed hex text, or returns `None` where the text is not of that form.
pub fn try_decode(text: &str) -> (r: Option<Vec<u8>>)
    ensures
        match decode_spec(text@) {
            Some(bytes) => r matches Some(v) && v@ == bytes,
            None => r is None,
        },
{
    if !starts_with_hex_prefix(text) {
        return None;
    }
    let digits = text.substring_char(2, text.unicode_len());
    assert(digits@ =~= text@.skip(2));
    match hex_decode(digits) {
        Ok(bytes) => Some(bytes),
        Err(_) => None,
    }
}

/// Decodes `0x`-prefixed hex text into bytes. Fails with a payload format error where the
/// prefix is missing, a character after it is not a hex digit, or their number is odd.
pub fn decode(text: &str) -> (r: Result<Vec<u8>, RollupError>)
    ensures
        match decode_spec(text@) {
            Some(bytes) => r matches Ok(v) && v@ == bytes,
            None => fails_with(r, RollupErrorKind::PayloadFormat),
        },
        r.is_err() <==> !has_hex_prefix(text@) || text@.len() % 2 != 0 || exists|i: int|
            2 <= i < text@.len() && !is_hex_digit(text@[i]),
{
    proof {
        lemma_decode_fails(text@);
    }
    match try_decode(text) {
        Some(bytes) => Ok(bytes),
        None => Err(RollupError::of_kind(RollupErrorKind::PayloadFormat)),
    }
}

/// A number below sixteen is the value of its own hex digit.
pub proof fn lemma_nibble_round_trip(n: int)
    requires
        0 <= n < 16,
    ensures
        is_lower_hex_digit(nibble_char(n)),
        is_hex_digit(nibble_char(n)),
        hex_value(nibble_char(n)) == n,
{
}

/// Decoding fails exactly where the prefix is missing, the number of characters after it
/// is odd, or one of them is not a hex digit.
pub proof fn lemma_decode_fails(text: Seq<char>)
    ensures
        decode_spec(text) is None <==> !has_hex_prefix(text) || text.len() % 2 != 0 || exists|
            i: int,
        |
            2 <= i < text.len() && !is_hex_digit(text[i]),
{
    if has_hex_prefix(text) {
        let rest = text.skip(2);
        if well_formed_hex(rest) {
            assert forall|i: int| 2 <= i < text.len() implies is_hex_digit(text[i]) by {
                assert(rest[i - 2] == text[i]);
            }
        } else if text.len() % 2 == 0 {
            let j = choose|j: int| 0 <= j < rest.len() && !is_hex_digit(#[trigger] rest[j]);
            assert(rest[j] == text[j + 2]);
            assert(2 <= j + 2 < text.len() && !is_hex_digit(text[j + 2]));
        }
    }
}

/// Every encoding starts with `0x`, and an even number of hex digits follows it, none of
/// them an upper-case letter.
pub proof fn lemma_encode_shape(bytes: Seq<u8>)
    ensures
        has_hex_prefix(encode_spec(bytes)),
        encode_spec(bytes).len() == 2 + 2 * bytes.len(),
        (encode_spec(bytes).len() - 2) % 2 == 0,
        well_formed_hex(encode_spec(bytes).skip(2)),
        forall|i: int|
            2 <= i < encode_spec(bytes).len() ==> is_lower_hex_digit(
                #[trigger] encode_spec(bytes)[i],
            ),
{
    let text = encode_spec(bytes);
    assert(text.skip(2) =~= hex_text(bytes));
    assert forall|i: int| 0 <= i < hex_text(bytes).len() implies is_lower_hex_digit(
        #[trigger] hex_text(bytes)[i],
    ) by {
        lemma_nibble_round_trip(bytes[i / 2] as int / 16);
        lemma_nibble_round_trip(bytes[i / 2] as int % 16);
    }
    assert forall|i: int| 2 <= i < text.len() implies is_lower_hex_digit(#[trigger] text[i]) by {
        assert(text[i] == hex_text(bytes)[i - 2]);
    }
}

/// Decoding the encoding of any bytes gives those bytes back.
pub proof fn lemma_decode_encode(bytes: Seq<u8>)
    ensures
        decode_spec(encode_spec(bytes)) == Some(bytes),
{
    let text = encode_spec(bytes);
    lemma_encode_shape(bytes);
    assert(text.skip(2) =~= hex_text(bytes));
    let digits = hex_text(bytes);
    assert forall|i: int| 0 <= i < bytes.len() implies hex_bytes(digits)[i] == bytes[i] by {
        let b = bytes[i] as int;
        lemma_nibble_round_trip(b / 16);
        lemma_nibble_round_trip(b % 16);
        assert(digits[2 * i] == nibble_char(b / 16));
        assert(digits[2 * i + 1] == nibble_char(b % 16));
    }
    assert(hex_bytes(digits) =~= bytes);
}

} // verus!
