//! Random identifiers, held as the 128 bits of a UUID.

use vstd::prelude::*;

verus! {

/// Lower-case hexadecimal digit of a value below 16.
pub open spec fn hex_digit(n: u128) -> char {
    seq!['0', '1', '2', '3', '4', '5', '6', '7', '8', '9', 'a', 'b', 'c', 'd', 'e', 'f'][n as int]
}

/// The `k`-th of the 32 hexadecimal digits of `id`, most significant first.
pub open spec fn nibble(id: u128, k: int) -> u128 {
    (id >> ((124 - 4 * k) as u128)) & 15
}

/// Which of the 32 digits the character at position `i` of the text shows.
pub open spec fn digit_at(i: int) -> int {
    if i < 8 {
        i
    } else if i < 13 {
        i - 1
    } else if i < 18 {
        i - 2
    } else if i < 23 {
        i - 3
    } else {
        i - 4
    }
}

/// The hyphenated lower-case text of the UUID with the given bits: its 32
/// hexadecimal digits, most significant first, with a hyphen after the 8th,
/// 12th, 16th and 20th.
pub open spec fn hyphenated(id: u128) -> Seq<char> {
    Seq::new(
        36,
        |i: int|
            if i == 8 || i == 13 || i == 18 || i == 23 {
                '-'
            } else {
                hex_digit(nibble(id, digit_at(i)))
            },
    )
}

/// Relies on uuid::Uuid::new_v4: a random version-4 UUID, taken as its bits.
#[verifier::external_body]
pub(crate) fn random_id() -> u128 {
    uuid::Uuid::new_v4().as_u128()
}

/// Relies on the `Display` of uuid::fmt::Hyphenated: the 8-4-4-4-12 lower-case
/// hexadecimal text of the UUID's big-endian bytes, which no other UUID shares
/// since it spells out all 128 bits.
#[verifier::external_body]
pub(crate) fn hyphenated_text(id: u128) -> (r: String)
    ensures
        r@ == hyphenated(id),
        forall|other: u128| #[trigger] hyphenated(other) == r@ ==> other == id,
{
    uuid::Uuid::from_u128(id).hyphenated().to_string()
}

} // verus!
