//! Resource identifiers: UUIDs, held as the 128-bit number that their sixteen
//! bytes spell in big-endian order.

use vstd::prelude::*;

use crate::text::digit_char;

verus! {

/// The character that stands for the hexadecimal digit `d`, in lower case.
pub open spec fn hex_char(d: int) -> char {
    if d < 10 {
        digit_char(d)
    } else if d == 10 {
        'a'
    } else if d == 11 {
        'b'
    } else if d == 12 {
        'c'
    } else if d == 13 {
        'd'
    } else if d == 14 {
        'e'
    } else {
        'f'
    }
}

/// The hexadecimal digit of `id` at place `k`, counted from the most
/// significant of its 32 digits.
pub open spec fn hex_digit_at(id: u128, k: int) -> int {
    ((id >> ((4 * (31 - k)) as u128)) & 0xf) as int
}

/// How many hyphens stand before position `i` of the hyphenated form.
pub open spec fn hyphens_before(i: int) -> int {
    if i < 8 {
        0
    } else if i < 13 {
        1
    } else if i < 18 {
        2
    } else if i < 23 {
        3
    } else {
        4
    }
}

/// The canonical text of an identifier: 32 lower-case hexadecimal digits in
/// groups of 8, 4, 4, 4 and 12, with hyphens between the groups.
pub open spec fn hyphenated(id: u128) -> Seq<char> {
    Seq::new(
        36,
        |i: int|
            if i == 8 || i == 13 || i == 18 || i == 23 {
                '-'
            } else {
                hex_char(hex_digit_at(id, i - hyphens_before(i)))
            },
    )
}

/// The identifier that `uuid::Uuid::parse_str` reads from a text, as its
/// 128-bit number, or `None` where it reports an error.
pub uninterp spec fn parsed_uuid(text: Seq<char>) -> Option<u128>;

/// A fresh random identifier from `uuid::Uuid::new_v4`. Whatever the random
/// bits, the version digit is 4 and the variant digit is one of 8, 9, a, b.
/// The call panics where the operating system gives no random bytes.
#[verifier::external_body]
pub(crate) fn new_v4() -> (id: u128)
    ensures
        hex_digit_at(id, 12) == 4,
        8 <= hex_digit_at(id, 16) <= 11,
{
    uuid::Uuid::new_v4().as_u128()
}

/// The text that `uuid::Uuid` displays for the identifier: its hyphenated
/// lower-case form.
#[verifier::external_body]
pub(crate) fn to_hyphenated(id: u128) -> (s: String)
    ensures
        s@ == hyphenated(id),
{
    uuid::Uuid::from_u128(id).to_string()
}

/// Reads an identifier with `uuid::Uuid::parse_str`.
#[verifier::external_body]
pub(crate) fn parse_uuid(text: &str) -> (r: Option<u128>)
    ensures
        r == parsed_uuid(text@),
{
    uuid::Uuid::parse_str(text).ok().map(|u| u.as_u128())
}

} // verus!
