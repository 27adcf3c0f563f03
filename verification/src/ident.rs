//! Identifiers. An identifier is the 128-bit value of a UUID; its text is
//! the UUID's usual hyphenated form.

use vstd::arithmetic::power::pow;
use vstd::prelude::*;

verus! {

/// The identifier of a user or of a notification: a UUID as its 128-bit
/// value, most significant byte first. Identifiers are ordered as numbers.
pub type Id = u128;

/// A moment in time, in nanoseconds since the Unix epoch.
pub type Timestamp = i128;

/// The hexadecimal digit for a value below sixteen, in lower case.
pub open spec fn hex_digit(value: int) -> char {
    if value < 10 {
        ('0' as int + value) as char
    } else {
        ('a' as int + value - 10) as char
    }
}

/// The text of an identifier: its 32 hexadecimal digits in lower case, most
/// significant first, in groups of 8, 4, 4, 4 and 12 with a hyphen between
/// two groups.
pub open spec fn hyphenated(id: Id) -> Seq<char> {
    Seq::new(
        36,
        |i: int|
            if i == 8 || i == 13 || i == 18 || i == 23 {
                '-'
            } else {
                let hyphens_before: int = if i < 8 {
                    0
                } else if i < 13 {
                    1
                } else if i < 18 {
                    2
                } else if i < 23 {
                    3
                } else {
                    4
                };
                let place = (31 - (i - hyphens_before)) as nat;
                hex_digit((id as int / pow(16, place)) % 16)
            },
    )
}

/// The text of an identifier.
///
/// Trusted: `Uuid::from_u128` makes the UUID whose bytes are the value's,
/// most significant first, and `to_string` on a `Uuid` writes it hyphenated
/// in lower case.
#[verifier::external_body]
pub(crate) fn id_text(id: Id) -> (text: String)
    ensures
        text@ == hyphenated(id),
{
    uuid::Uuid::from_u128(id).to_string()
}

} // verus!
