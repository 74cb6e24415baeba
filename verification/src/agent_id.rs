use vstd::arithmetic::power::pow;
use vstd::prelude::*;

verus! {

/// The character for a hexadecimal digit `d` (`0 <= d < 16`), in lower case.
pub open spec fn hex_digit_char(d: int) -> char {
    if d < 10 {
        (48 + d) as char
    } else {
        (87 + d) as char
    }
}

/// The `k`-th hexadecimal digit of `v`, counting from the most significant
/// of its 32 digits.
pub open spec fn hex_digit_of(v: u128, k: int) -> int {
    (v as int / pow(16, (31 - k) as nat)) % 16
}

/// Whether position `i` of a hyphenated UUID text holds a hyphen.
pub open spec fn is_hyphen_position(i: int) -> bool {
    i == 8 || i == 13 || i == 18 || i == 23
}

/// The digit index shown at position `i` of a hyphenated UUID text.
pub open spec fn digit_at_position(i: int) -> int {
    if i < 8 {
        i
    } else if i < 13 {
        i - 1
    } else if i < 18 {
        i - 2
    } else if i < 23 {
        i - 3
    } else {
        i - 4
    }
}

/// The hyphenated lower-case text of a 128-bit UUID value, such as
/// `67e55044-10b1-426f-9247-bb680e5fe0c8`: its 32 hexadecimal digits, most
/// significant first, in groups of 8, 4, 4, 4 and 12.
pub open spec fn hyphenated_text(v: u128) -> Seq<char> {
    Seq::new(
        36,
        |i: int|
            if is_hyphen_position(i) {
                '-'
            } else {
                hex_digit_char(hex_digit_of(v, digit_at_position(i)))
            },
    )
}

/// Whether `v` is laid out as a random UUID: its version digit (the 13th
/// hexadecimal digit) is 4, and the two top bits of its variant digit (the
/// 17th) are 1 and 0.
pub open spec fn is_random_uuid(v: u128) -> bool {
    (v >> 76u128) & 0xf == 4 && (v >> 62u128) & 0x3 == 2
}

/// A fresh random version-4 UUID value, from `uuid::Uuid::new_v4`.
///
/// Trusted: `new_v4` draws the value from the operating system's random
/// source and then sets the version and variant bits, so only those bits are
/// stated.
#[verifier::external_body]
fn random_uuid_value() -> (v: u128)
    ensures
        is_random_uuid(v),
{
    uuid::Uuid::new_v4().as_u128()
}

/// The text of a UUID value, from `uuid::Uuid::from_u128` and its `Display`.
///
/// Trusted: the uuid crate documents and implements `Display` as the
/// hyphenated lower-case form of the 128-bit value.
#[verifier::external_body]
fn uuid_value_text(v: u128) -> (s: String)
    ensures
        s@ == hyphenated_text(v),
{
    uuid::Uuid::from_u128(v).to_string()
}

/// Identifier of an agent: a 128-bit UUID value.
#[derive(Clone, Copy, Debug, PartialEq, Eq, Hash, Structural)]
pub struct AgentId {
    value: u128,
}

impl View for AgentId {
    type V = u128;

    closed spec fn view(&self) -> u128 {
        self.value
    }
}

impl AgentId {
    /// A fresh random identifier: a version-4 UUID.
    pub fn new() -> (id: Self)
        ensures
            is_random_uuid(id@),
    {
        AgentId { value: random_uuid_value() }
    }

    /// The identifier with the given 128-bit value.
    pub fn from_u128(value: u128) -> (id: Self)
        ensures
            id@ == value,
    {
        AgentId { value }
    }

    /// The 128-bit value of the identifier.
    pub fn as_u128(&self) -> (v: u128)
        ensures
            v == self@,
    {
        self.value
    }

    /// The identifier's text: the hyphenated UUID form of its value.
    pub fn to_string(&self) -> (s: String)
        ensures
            s@ == hyphenated_text(self@),
    {
        uuid_value_text(self.value)
    }
}

} // verus!
