//! The bridge to `uuid::Uuid`: identifiers are held as their 128 bits, and the `uuid` crate
//! converts them and renders their canonical text.
use vstd::prelude::*;
use vstd::arithmetic::power2::pow2;
use uuid::Uuid;

verus! {

/// `uuid::Uuid`, carried through verified code as an opaque value.
#[verifier::external_type_specification]
#[verifier::external_body]
pub struct ExUuid(Uuid);

/// The lowercase hexadecimal character for a nibble value `0..16`.
pub open spec fn hex_char(v: int) -> char {
    if v < 10 {
        ('0' as int + v) as char
    } else {
        ('a' as int + v - 10) as char
    }
}

/// The `k`-th of the 32 hexadecimal digits of `bits`, most significant first.
pub open spec fn hex_digit(bits: u128, k: int) -> int {
    (bits as int / pow2((4 * (31 - k)) as nat) as int) % 16
}

/// Which of the 32 digits stands at position `i` of the hyphenated form.
pub open spec fn digit_at(i: int) -> int {
    if i < 8 {
        i
    } else if i < 13 {
        i - 1
    } else if i < 18 {
        i - 2
    } else if i < 23 {
        i - 3
    } else {
        i - 4
    }
}

/// The canonical hyphenated form of a UUID: 32 lowercase hexadecimal digits, most significant
/// first, in groups of 8-4-4-4-12 separated by `-`.
pub open spec fn hyphenated_hex(bits: u128) -> Seq<char> {
    Seq::new(
        36,
        |i: int|
            if i == 8 || i == 13 || i == 18 || i == 23 {
                '-'
            } else {
                hex_char(hex_digit(bits, digit_at(i)))
            },
    )
}

/// The UUID `Uuid::from_u128` builds from these bits: the one whose 16 bytes are `bits` in
/// big-endian order.
pub uninterp spec fn uuid_of_bits(bits: u128) -> Uuid;

/// Calls `Uuid::as_u128`, which packs the UUID's 16 bytes big-endian into a `u128`; claimed:
/// those bits rebuild this UUID, and they are the only bits that do (`from_u128` and
/// `as_u128` are inverse byte-order conversions of the same 16 bytes).
#[verifier::external_body]
pub(crate) fn uuid_bits(id: Uuid) -> (r: u128)
    ensures
        uuid_of_bits(r) == id,
        forall|b: u128| #[trigger] uuid_of_bits(b) == id ==> b == r,
{
    id.as_u128()
}

/// Calls `Uuid::from_u128`, which stores the bits as the UUID's 16 big-endian bytes; claimed:
/// the result is the UUID these bits name, and no other bits name it (the byte conversion is
/// one-to-one).
#[verifier::external_body]
pub(crate) fn uuid_from_bits(bits: u128) -> (r: Uuid)
    ensures
        r == uuid_of_bits(bits),
        forall|b: u128| #[trigger] uuid_of_bits(b) == r ==> b == bits,
{
    Uuid::from_u128(bits)
}

/// Renders the UUID with these bits through `Uuid`'s `Display`, which writes the hyphenated
/// lowercase form; claimed: the text is `hyphenated_hex(bits)`.
#[verifier::external_body]
pub(crate) fn uuid_text(bits: u128) -> (s: String)
    ensures
        s@ == hyphenated_hex(bits),
{
    Uuid::from_u128(bits).to_string()
}

} // verus!
