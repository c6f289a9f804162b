//! Format checks applied to voucher fields before they reach the device.
//!
//! Both checks accept text that *ends* in `0x` followed by a bounded, non-empty run of hex
//! digits. Nothing is demanded of what stands before that suffix.

use vstd::prelude::*;
use crate::codec::is_hex_digit;

verus! {

/// Most hex digits that may follow `0x` in an address.
pub const ADDRESS_DIGITS_MAX: usize = 42;

/// Most hex digits that may follow `0x` in an unsigned 256-bit value.
pub const U256_DIGITS_MAX: usize = 64;

/// Holds where the last `k + 2` characters of `text` are `0x` and then `k` hex digits.
pub open spec fn ends_with_hex_run(text: Seq<char>, k: int) -> bool {
    &&& k + 2 <= text.len()
    &&& text[text.len() - k - 2] == '0'
    &&& text[text.len() - k - 1] == 'x'
    &&& forall|j: int| text.len() - k <= j < text.len() ==> is_hex_digit(#[trigger] text[j])
}

/// Holds where some suffix of `text` is `0x` followed by between one and `limit` hex digits.
pub open spec fn matches_hex_suffix(text: Seq<char>, limit: int) -> bool {
    exists|k: int| 1 <= k <= limit && #[trigger] ends_with_hex_run(text, k)
}

/// Holds of the text that the address check accepts.
pub open spec fn is_eth_address_spec(text: Seq<char>) -> bool {
    matches_hex_suffix(text, ADDRESS_DIGITS_MAX as int)
}

/// Holds of the text that the unsigned 256-bit value check accepts.
pub open spec fn is_u256_value_spec(text: Seq<char>) -> bool {
    matches_hex_suffix(text, U256_DIGITS_MAX as int)
}

fn is_hex_char(c: char) -> (r: bool)
    ensures
        r == is_hex_digit(c),
{
    ('0' <= c && c <= '9') || ('a' <= c && c <= 'f') || ('A' <= c && c <= 'F')
}

/// Tells whether `text` ends in `0x` followed by between one and `limit` hex digits.
pub fn has_hex_suffix(text: &str, limit: usize) -> (r: bool)
    requires
        limit < usize::MAX,
    ensures
        r == matches_hex_suffix(text@, limit as int),
{
    let len = text.unicode_len();
    let mut n: usize = 0;
    let mut stopped = false;
    while n < len && n <= limit && !stopped
        invariant
            len == text@.len(),
            n <= len,
            n <= limit + 1,
            limit < usize::MAX,
            forall|j: int| len - n <= j < len ==> is_hex_digit(#[trigger] text@[j]),
            stopped ==> n < len && !is_hex_digit(text@[len - 1 - n]),
        decreases len - n + (if stopped { 0int } else { 1int }),
    {
        if is_hex_char(text.get_char(len - 1 - n)) {
            n = n + 1;
        } else {
            stopped = true;
        }
    }
    let r = 1 <= n && n <= limit && len >= 2 && n <= len - 2 && text.get_char(len - n - 1) == 'x'
        && text.get_char(len - n - 2) == '0';
    proof {
        if r {
            assert(ends_with_hex_run(text@, n as int));
        }
        if matches_hex_suffix(text@, limit as int) {
            let k = choose|k: int| 1 <= k <= limit && #[trigger] ends_with_hex_run(text@, k);
            assert(!is_hex_digit(text@[len - k - 1]));
            if n > k {
                assert(is_hex_digit(text@[len - k - 1]));
            }
            if n < k {
                assert(is_hex_digit(text@[len - 1 - n]));
            }
            assert(n == k);
        }
    }
    r
}

/// The address check: accepts text that ends in `0x` and one to 42 hex digits.
pub fn is_eth_address(text: &str) -> (r: bool)
    ensures
        r == is_eth_address_spec(text@),
{
    has_hex_suffix(text, ADDRESS_DIGITS_MAX)
}

/// The unsigned 256-bit value check: accepts text that ends in `0x` and one to 64 hex digits.
pub fn is_u256_value(text: &str) -> (r: bool)
    ensures
        r == is_u256_value_spec(text@),
{
    has_hex_suffix(text, U256_DIGITS_MAX)
}

/// Text made of `0x` and then between one and `limit` hex digits passes the check.
pub proof fn lemma_plain_hex_accepted(text: Seq<char>, limit: int)
    requires
        3 <= text.len() <= limit + 2,
        text[0] == '0',
        text[1] == 'x',
        forall|j: int| 2 <= j < text.len() ==> is_hex_digit(#[trigger] text[j]),
    ensures
        matches_hex_suffix(text, limit),
{
    assert(ends_with_hex_run(text, text.len() - 2));
}

/// Text whose last character is not a hex digit fails the check, and so does empty text.
pub proof fn lemma_non_hex_ending_rejected(text: Seq<char>, limit: int)
    requires
        text.len() == 0 || !is_hex_digit(text.last()),
    ensures
        !matches_hex_suffix(text, limit),
{
    if matches_hex_suffix(text, limit) {
        let k = choose|k: int| 1 <= k <= limit && #[trigger] ends_with_hex_run(text, k);
        assert(is_hex_digit(text[text.len() - 1]));
    }
}

/// Whatever stands before an accepted text, the whole is accepted too: the check looks
/// only at the end of the text.
pub proof fn lemma_prefix_ignored(prefix: Seq<char>, text: Seq<char>, limit: int)
    requires
        matches_hex_suffix(text, limit),
    ensures
        matches_hex_suffix(prefix + text, limit),
{
    let k = choose|k: int| 1 <= k <= limit && #[trigger] ends_with_hex_run(text, k);
    let whole = prefix + text;
    assert forall|j: int| whole.len() - k <= j < whole.len() implies is_hex_digit(
        #[trigger] whole[j],
    ) by {
        assert(whole[j] == text[j - prefix.len()]);
    }
    assert(whole[whole.len() - k - 2] == text[text.len() - k - 2]);
    assert(whole[whole.len() - k - 1] == text[text.len() - k - 1]);
    assert(ends_with_hex_run(whole, k));
}

} // verus!
