//! Record identifiers: 128-bit values that are drawn at random and
//! written in the hyphenated form of a UUID.

use vstd::prelude::*;

verus! {

/// The lower-case hexadecimal digit for a value below sixteen.
pub open spec fn hex_digit(value: u128) -> char {
    seq![
        '0', '1', '2', '3', '4', '5', '6', '7', '8', '9', 'a', 'b', 'c', 'd', 'e', 'f',
    ][value as int]
}

/// The digit of `id` at the place `k` of its 32 hexadecimal digits,
/// counted from the most significant one.
pub open spec fn digit_of(id: u128, k: int) -> char {
    hex_digit((id >> ((4 * (31 - k)) as u128)) & 0xf)
}

/// Whether a hyphen stands at the place `place` of the written form.
pub open spec fn is_hyphen_place(place: int) -> bool {
    place == 8 || place == 13 || place == 18 || place == 23
}

/// The number of hyphens that stand before the place `place`.
pub open spec fn hyphens_before(place: int) -> int {
    if place < 8 {
        0
    } else if place < 13 {
        1
    } else if place < 18 {
        2
    } else if place < 23 {
        3
    } else {
        4
    }
}

/// The written form of the identifier `id`: its 32 lower-case
/// hexadecimal digits, most significant first, in groups of 8, 4, 4, 4
/// and 12 with a hyphen between two groups; 36 characters in all.
pub open spec fn hyphenated(id: u128) -> Seq<char> {
    Seq::new(
        36,
        |place: int|
            if is_hyphen_place(place) {
                '-'
            } else {
                digit_of(id, place - hyphens_before(place))
            },
    )
}

/// Whether `id` carries the version (4) and variant (RFC 9562) marks of a
/// randomly generated UUID.
pub open spec fn is_random_id(id: u128) -> bool {
    id & 0x0000_0000_0000_F000_C000_0000_0000_0000u128
        == 0x0000_0000_0000_4000_8000_0000_0000_0000u128
}

/// Calls `uuid::Uuid::new_v4` and hands the value out as an integer.
/// The 122 free bits come from the operating system's random source, so
/// the contract states only the six bits that the crate sets on every
/// value: version 4 and the RFC variant.
#[verifier::external_body]
pub(crate) fn random_id() -> (id: u128)
    ensures
        is_random_id(id),
{
    uuid::Uuid::new_v4().as_u128()
}

/// Calls `to_string` on the `uuid::Uuid` made of `id`. The crate writes
/// the bytes of the value, most significant first, as lower-case
/// hexadecimal digits with hyphens after the digits 8, 12, 16 and 20;
/// the contract says that the text is [`hyphenated`] of `id`.
#[verifier::external_body]
pub(crate) fn id_text(id: u128) -> (text: String)
    ensures
        text@ == hyphenated(id),
{
    uuid::Uuid::from_u128(id).to_string()
}

} // verus!
