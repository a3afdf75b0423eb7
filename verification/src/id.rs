//! Universally unique identifiers and their textual forms.

use vstd::prelude::*;

verus! {

/// A universally unique identifier, held as its 128-bit value.
#[derive(Clone, Copy, Debug, PartialEq, Eq, Structural)]
pub struct Uuid {
    pub value: u128,
}

/// `uuid::Error`: why a text was refused. It is carried, never looked into.
#[verifier::external_type_specification]
#[verifier::external_body]
pub struct ExUuidError(uuid::Error);

/// The value that `uuid::Uuid::parse_str` reads from a text, `None` where it
/// rejects the text.
pub uninterp spec fn parsed_uuid(text: Seq<char>) -> Option<u128>;

/// The text that `uuid::Uuid` displays for a value: lower-case hexadecimal
/// digits in hyphenated groups.
pub uninterp spec fn uuid_text(value: u128) -> Seq<char>;

/// `uuid::Uuid::parse_str`, with the identifier handed back as its 128-bit
/// value. The outcome depends on the text alone; the parser never panics.
#[verifier::external_body]
fn parse_uuid(input: &str) -> (r: Result<Uuid, uuid::Error>)
    ensures
        match r {
            Ok(id) => parsed_uuid(input@) == Some(id.value),
            Err(_) => parsed_uuid(input@) is None,
        },
{
    match uuid::Uuid::parse_str(input) {
        Ok(id) => Ok(Uuid { value: id.as_u128() }),
        Err(e) => Err(e),
    }
}

/// `to_string` of the `uuid::Uuid` built by `from_u128`. The text depends on
/// the value alone, and `parse_str` reads every text that the crate itself
/// writes back to the value it was written from.
#[verifier::external_body]
fn display_uuid(value: u128) -> (r: String)
    ensures
        r@ == uuid_text(value),
        parsed_uuid(r@) == Some(value),
{
    uuid::Uuid::from_u128(value).to_string()
}

impl Uuid {
    /// Reads an identifier from any of the accepted textual forms.
    pub fn parse_str(input: &str) -> (r: Option<Uuid>)
        ensures
            r == Self::spec_parse(input@),
    {
        match parse_uuid(input) {
            Ok(id) => Some(id),
            Err(_) => None,
        }
    }

    /// The identifier that a text denotes, if it denotes one.
    pub open spec fn spec_parse(text: Seq<char>) -> Option<Uuid> {
        match parsed_uuid(text) {
            Some(value) => Some(Uuid { value }),
            None => None,
        }
    }

    /// The canonical text of an identifier.
    pub open spec fn text(self) -> Seq<char> {
        uuid_text(self.value)
    }

    /// Writes the identifier in its canonical, hyphenated form. Reading the
    /// text back gives the identifier again.
    pub fn to_string(&self) -> (r: String)
        ensures
            r@ == self.text(),
            Self::spec_parse(r@) == Some(*self),
    {
        display_uuid(self.value)
    }
}

} // verus!
