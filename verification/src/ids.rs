//! Identifiers. A UUID is held as the 128-bit integer whose big-endian bytes
//! are the UUID's bytes.
use vstd::prelude::*;

verus! {

/// The lowercase hexadecimal digits, in order of value.
pub open spec fn hex_digits() -> Seq<char> {
    seq!['0', '1', '2', '3', '4', '5', '6', '7', '8', '9', 'a', 'b', 'c', 'd', 'e', 'f']
}

/// The `k`-th hexadecimal digit of `x`, counting from the most significant (k in 0..32).
pub open spec fn nibble(x: u128, k: int) -> int {
    ((x >> ((31 - k) * 4) as u128) & 15u128) as int
}

/// Where the text position `i` (not a hyphen) takes its digit from.
pub open spec fn digit_position(i: int) -> int {
    if i < 8 {
        i
    } else if i < 13 {
        i - 1
    } else if i < 18 {
        i - 2
    } else if i < 23 {
        i - 3
    } else {
        i - 4
    }
}

/// The hyphenated lowercase form of a UUID: 32 hexadecimal digits, most
/// significant first, in groups of 8-4-4-4-12 separated by `-`.
pub open spec fn uuid_text(x: u128) -> Seq<char> {
    Seq::new(
        36,
        |i: int|
            if i == 8 || i == 13 || i == 18 || i == 23 {
                '-'
            } else {
                hex_digits()[nibble(x, digit_position(i))]
            },
    )
}

/// Formats a UUID with the `uuid` crate's `Display` (`Uuid::from_u128(x).to_string()`).
/// Trusted: the crate writes the hyphenated lowercase form that `uuid_text` spells out.
#[verifier::external_body]
pub(crate) fn uuid_to_string(x: u128) -> (s: String)
    ensures
        s@ == uuid_text(x),
{
    uuid::Uuid::from_u128(x).to_string()
}


/// A version-4 UUID: version nibble 4 and the RFC 4122 variant bits `10`.
pub open spec fn is_v4(x: u128) -> bool {
    &&& (x >> 76u128) & 15u128 == 4u128
    &&& (x >> 62u128) & 3u128 == 2u128
}

/// Draws a random UUID with the `uuid` crate (`Uuid::new_v4().as_u128()`).
/// Trusted: the crate masks random bits so that the result is a version-4 UUID.
/// Which UUID comes back is left open: it rests on chance.
#[verifier::external_body]
pub(crate) fn new_v4() -> (x: u128)
    ensures
        is_v4(x),
{
    uuid::Uuid::new_v4().as_u128()
}

} // verus!
