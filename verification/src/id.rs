//! Record identifiers: UUIDs, held as their 128 bits.

use vstd::arithmetic::power::pow;
use vstd::prelude::*;

verus! {

/// What `uuid::Uuid::parse_str` makes of a text: the 128 bits of the UUID
/// that it reads, or `None` where it reports an error.
pub uninterp spec fn uuid_parse(text: Seq<char>) -> Option<u128>;

/// The hexadecimal digit of `value` at place `k` of 32, counted from the
/// most significant.
pub open spec fn hex_digit(value: u128, k: int) -> int {
    (value as int / pow(16, (31 - k) as nat)) % 16
}

/// The place among the 32 digits of the character at place `i` of the 36,
/// where that is no hyphen.
pub open spec fn digit_place(i: int) -> int {
    if i < 8 {
        i
    } else if i < 13 {
        i - 1
    } else if i < 18 {
        i - 2
    } else if i < 23 {
        i - 3
    } else {
        i - 4
    }
}

/// The text of the UUID of these 128 bits: its 32 hexadecimal digits in
/// lower case, the most significant first, in groups of 8, 4, 4, 4 and 12
/// with a hyphen between the groups.
pub open spec fn uuid_text(value: u128) -> Seq<char> {
    Seq::new(
        36,
        |i: int|
            if i == 8 || i == 13 || i == 18 || i == 23 {
                '-'
            } else {
                "0123456789abcdef"@[hex_digit(value, digit_place(i))]
            },
    )
}

/// Calls `uuid::Uuid::parse_str`, which reads the simple, hyphenated, braced
/// and URN forms, and hands out the UUID as 128 bits (`Uuid::as_u128`).
/// The contract names the result, and claims that the hyphenated text of a
/// UUID it has read is read back as that UUID.
#[verifier::external_body]
fn parse_uuid(text: &str) -> (r: Option<u128>)
    ensures
        r == uuid_parse(text@),
        r matches Some(value) ==> uuid_parse(uuid_text(value)) == Some(value),
{
    uuid::Uuid::parse_str(text).ok().map(|u| u.as_u128())
}

/// Calls `Display` of `uuid::Uuid` on the UUID of these bits
/// (`Uuid::from_u128`), which writes the hyphenated lower-case form. The
/// contract states the text, and claims that `parse_str` reads it back as
/// the same UUID.
#[verifier::external_body]
fn format_uuid(value: u128) -> (r: String)
    ensures
        r@ == uuid_text(value),
        uuid_parse(r@) == Some(value),
{
    uuid::Uuid::from_u128(value).to_string()
}

/// The identity of a record.
#[derive(Clone, Copy, Debug, PartialEq, Eq, Structural, Hash)]
pub struct Id {
    pub value: u128,
}

impl Id {
    /// The text of the identifier reads back as the identifier. This holds of
    /// every identifier; Verus learns it of those that the crate has parsed
    /// or written.
    pub open spec fn canonical(self) -> bool {
        uuid_parse(uuid_text(self.value)) == Some(self.value)
    }

    /// The identifier that a text spells, if it spells one.
    pub open spec fn spec_parse(text: Seq<char>) -> Option<Id> {
        match uuid_parse(text) {
            Some(value) => Some(Id { value }),
            None => None,
        }
    }

    pub fn from_u128(value: u128) -> (r: Id)
        ensures
            r.value == value,
    {
        Id { value }
    }

    pub fn as_u128(self) -> (r: u128)
        ensures
            r == self.value,
    {
        self.value
    }

    /// Reads an identifier from its text.
    pub fn parse(text: &str) -> (r: Option<Id>)
        ensures
            r == Id::spec_parse(text@),
            r matches Some(id) ==> id.canonical(),
    {
        match parse_uuid(text) {
            Some(value) => Some(Id { value }),
            None => None,
        }
    }

    /// Writes the identifier as text.
    pub fn to_text(self) -> (r: String)
        ensures
            r@ == uuid_text(self.value),
            self.canonical(),
    {
        format_uuid(self.value)
    }
}

} // verus!
