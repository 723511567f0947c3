//! Identifiers of events and entities.

use vstd::prelude::*;

verus! {

/// The 128-bit value that `uuid::Uuid::parse_str` reads from `text`, or `None`
/// where it rejects the text.
pub uninterp spec fn uuid_value(text: Seq<char>) -> Option<u128>;

/// The text that `uuid::Uuid` displays for the 128-bit value `value`: lower-case
/// hexadecimal digits in five groups separated by hyphens.
pub uninterp spec fn uuid_text(value: u128) -> Seq<char>;

/// The bits of an identifier that mark its version and variant.
pub const VERSION_MASK: u128 = 0x0000_0000_0000_f000_c000_0000_0000_0000u128;

/// The value of those bits in a random (version 4) identifier.
pub const VERSION_RANDOM: u128 = 0x0000_0000_0000_4000_8000_0000_0000_0000u128;

/// An opaque 128-bit identifier. Two identifiers are equal exactly when their
/// bits are equal; no order is defined on them.
#[derive(Clone, Copy, Debug, PartialEq, Eq, Hash, Structural)]
pub struct Id(pub u128);

/// Calls `uuid::Uuid::new_v4` and returns the bits of the identifier it drew.
/// The bits are random; only the version and variant fields are fixed.
#[verifier::external_body]
fn random_bits() -> (bits: u128)
    ensures
        bits & VERSION_MASK == VERSION_RANDOM,
{
    uuid::Uuid::new_v4().as_u128()
}

/// Calls `uuid::Uuid::parse_str`. The result is `Ok` exactly for the texts on
/// which `uuid_value` is defined, and then holds that value; otherwise it
/// holds the message of the failure that `uuid` reported.
#[verifier::external_body]
fn parse_bits(s: &str) -> (r: Result<u128, String>)
    ensures
        r is Ok <==> uuid_value(s@) is Some,
        r matches Ok(bits) ==> uuid_value(s@) == Some(bits),
{
    match uuid::Uuid::parse_str(s) {
        Ok(uuid) => Ok(uuid.as_u128()),
        Err(err) => Err(err.to_string()),
    }
}

/// Formats `bits` as `uuid::Uuid` displays them. The text is `uuid_text(bits)`,
/// and `uuid::Uuid::parse_str` reads the same bits back from it.
#[verifier::external_body]
fn format_bits(bits: u128) -> (text: String)
    ensures
        text@ == uuid_text(bits),
        uuid_value(text@) == Some(bits),
{
    uuid::Uuid::from_u128(bits).to_string()
}

impl Id {
    /// A fresh random identifier.
    pub fn new() -> (id: Id)
        ensures
            id.0 & VERSION_MASK == VERSION_RANDOM,
    {
        Id(random_bits())
    }

    /// Parses an identifier from its textual form. A text that is no
    /// identifier is answered with a message that says why.
    pub fn from_str(s: &str) -> (r: Result<Id, String>)
        ensures
            r is Ok <==> uuid_value(s@) is Some,
            r matches Ok(id) ==> uuid_value(s@) == Some(id.0),
    {
        match parse_bits(s) {
            Ok(bits) => Ok(Id(bits)),
            Err(err) => Err(err),
        }
    }

    /// The textual form of the identifier. `from_str` maps it back to `self`.
    pub fn to_string(&self) -> (text: String)
        ensures
            text@ == uuid_text(self.0),
            uuid_value(text@) == Some(self.0),
    {
        format_bits(self.0)
    }
}

} // verus!
