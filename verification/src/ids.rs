//! Identifiers: user ids are UUIDs, request ids are random UUIDs, and new
//! feeds get a ULID.

use vstd::prelude::*;

verus! {

/// What `uuid::Uuid::parse_str` gives for a text: the 128-bit value of the
/// UUID it spells, in any of the formats the crate accepts, or nothing.
pub uninterp spec fn parsed_uuid(text: Seq<char>) -> Option<u128>;

/// The lowercase hexadecimal digit for `d`, below 16.
pub open spec fn hex_digit(d: int) -> char {
    if d < 10 {
        ('0' as int + d) as char
    } else {
        ('a' as int + d - 10) as char
    }
}

/// 16 to the power `n`.
pub open spec fn pow16(n: nat) -> nat
    decreases n,
{
    if n == 0 {
        1
    } else {
        16 * pow16((n - 1) as nat)
    }
}

/// The `k`-th of the 32 hexadecimal digits of `v`, most significant first.
pub open spec fn hex_nibble(v: u128, k: int) -> int {
    (v as int / pow16((31 - k) as nat) as int) % 16
}

/// Which of the 32 digits character `i` of the hyphenated form shows.
pub open spec fn uuid_digit_index(i: int) -> int {
    if i < 8 {
        i
    } else if i < 13 {
        i - 1
    } else if i < 18 {
        i - 2
    } else if i < 23 {
        i - 3
    } else {
        i - 4
    }
}

/// How `uuid::Uuid` prints a value: its 32 lowercase hexadecimal digits,
/// most significant first, in groups of 8, 4, 4, 4 and 12 joined by hyphens.
pub open spec fn uuid_text(value: u128) -> Seq<char> {
    Seq::new(36, |i: int|
        if i == 8 || i == 13 || i == 18 || i == 23 {
            '-'
        } else {
            hex_digit(hex_nibble(value, uuid_digit_index(i)))
        })
}

/// Calls `uuid::Uuid::parse_str` and returns the parsed value as a `u128`.
/// Its result is named `parsed_uuid`, a function of the text alone; nothing
/// more is stated of which texts parse.
#[verifier::external_body]
pub(crate) fn parse_uuid(text: &str) -> (res: Option<u128>)
    ensures
        res == parsed_uuid(text@),
{
    match uuid::Uuid::parse_str(text) {
        Ok(u) => Some(u.as_u128()),
        Err(_) => None,
    }
}

/// Calls `uuid::Uuid::from_u128(value).to_string()`: the hyphenated
/// lowercase form `uuid_text`, which `parse_str` reads back as the same
/// value.
#[verifier::external_body]
pub(crate) fn format_uuid(value: u128) -> (res: String)
    ensures
        res@ == uuid_text(value),
        res@.len() == 36,
        parsed_uuid(res@) == Some(value),
{
    uuid::Uuid::from_u128(value).to_string()
}

/// Calls `uuid::Uuid::new_v4().to_string()`: a fresh random UUID in its
/// 36-character hyphenated form, which `parse_str` reads back. Which UUID
/// comes out is left open.
#[verifier::external_body]
pub(crate) fn new_request_id() -> (res: String)
    ensures
        res@.len() == 36,
        parsed_uuid(res@) is Some,
{
    uuid::Uuid::new_v4().to_string()
}

/// Whether `c` is a Crockford base32 digit: `0`-`9` and the capital letters
/// but `I`, `L`, `O` and `U`.
pub open spec fn is_crockford_digit(c: char) -> bool {
    ('0' <= c <= '9') || ('A' <= c <= 'Z' && c != 'I' && c != 'L' && c != 'O' && c != 'U')
}

/// Calls `ulid::Ulid::new().to_string()`: a fresh ULID from the clock and a
/// random source, in its 26-character Crockford base32 form. Which ULID
/// comes out is left open.
#[verifier::external_body]
pub(crate) fn new_aggregate_key() -> (res: String)
    ensures
        res@.len() == 26,
        forall|i: int| 0 <= i < 26 ==> is_crockford_digit(#[trigger] res@[i]),
{
    ulid::Ulid::new().to_string()
}

} // verus!
