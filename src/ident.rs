//! Identifiers: 128-bit values written as UUID text in the store.
use vstd::prelude::*;

verus! {

/// The identifier that `uuid::Uuid::parse_str` reads from a text, if any.
pub uninterp spec fn uuid_of_text(s: Seq<char>) -> Option<u128>;

/// The lower-case hexadecimal digit of a value under 16.
pub open spec fn hex_digit(d: nat) -> char {
    seq!['0', '1', '2', '3', '4', '5', '6', '7', '8', '9', 'a', 'b', 'c', 'd', 'e', 'f'][d as int]
}

/// The last `n` hexadecimal digits of `v`, most significant first.
pub open spec fn hex_digits(v: nat, n: nat) -> Seq<char>
    decreases n,
{
    if n == 0 {
        seq![]
    } else {
        hex_digits(v / 16, (n - 1) as nat).push(hex_digit(v % 16))
    }
}

/// The hyphenated text of an identifier: its 32 hexadecimal digits in groups
/// of 8, 4, 4, 4 and 12.
pub open spec fn text_of_uuid(v: u128) -> Seq<char> {
    let d = hex_digits(v as nat, 32);
    d.subrange(0, 8) + seq!['-'] + d.subrange(8, 12) + seq!['-'] + d.subrange(12, 16) + seq!['-']
        + d.subrange(16, 20) + seq!['-'] + d.subrange(20, 32)
}

/// Relies on `uuid::Uuid::parse_str`: the identifier it reads depends on the
/// text alone.
#[verifier::external_body]
pub(crate) fn parse_id(s: &str) -> (r: Option<u128>)
    ensures
        r == uuid_of_text(s@),
{
    uuid::Uuid::parse_str(s).ok().map(|u| u.as_u128())
}

/// Relies on `uuid::Uuid::from_u128` (big-endian) and its `Display`, which
/// writes the hyphenated lower-case form; `parse_str` reads every format the
/// crate writes back to the same value.
#[verifier::external_body]
pub(crate) fn format_id(v: u128) -> (r: String)
    ensures
        r@ == text_of_uuid(v),
        uuid_of_text(r@) == Some(v),
{
    uuid::Uuid::from_u128(v).to_string()
}

/// The text under which the store keeps a record with this identifier; it
/// reads back as the identifier.
pub fn key_text(id: u128) -> (r: String)
    ensures
        r@ == text_of_uuid(id),
        uuid_of_text(r@) == Some(id),
{
    format_id(id)
}

} // verus!
