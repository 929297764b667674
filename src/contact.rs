//! Contact records as the archiver reads them, and their identifiers.
//!
//! An identifier is a UUID held as its 128-bit value; its text form and the
//! parsing of text come from the `uuid` crate.
use uuid::Error as UuidError;
use uuid::Uuid;
use vstd::prelude::*;

verus! {

#[verifier::external_type_specification]
#[verifier::external_body]
pub struct ExUuidError(UuidError);

/// The text that the `uuid` crate writes for the UUID with value `id`.
pub uninterp spec fn uuid_text_of(id: u128) -> Seq<char>;

/// The value that the `uuid` crate reads from text `s`, if it accepts it.
pub uninterp spec fn uuid_parsed(s: Seq<char>) -> Option<u128>;

/// A character of the lower-case hyphenated UUID form.
pub open spec fn is_uuid_char(c: char) -> bool {
    ('0' <= c && c <= '9') || ('a' <= c && c <= 'f') || c == '-'
}

/// Relies on `Uuid::from_u128` and `Display for Uuid`: the lower-case
/// hyphenated form (8-4-4-4-12 hex digits), which `Uuid::parse_str` reads back.
#[verifier::external_body]
fn uuid_to_text(id: u128) -> (r: String)
    ensures
        r@ == uuid_text_of(id),
        r@.len() == 36,
        forall|i: int| 0 <= i < r@.len() ==> is_uuid_char(#[trigger] r@[i]),
        uuid_parsed(r@) == Some(id),
{
    Uuid::from_u128(id).to_string()
}

/// Relies on `Uuid::parse_str` and `Uuid::as_u128`: the value of the UUID
/// written in `s`, or the crate's error where `s` is not one.
#[verifier::external_body]
fn uuid_from_text(s: &str) -> (r: Result<u128, UuidError>)
    ensures
        r matches Ok(v) ==> uuid_parsed(s@) == Some(v),
        r is Err ==> uuid_parsed(s@) is None,
{
    Uuid::parse_str(s).map(|u| u.as_u128())
}

/// The identifier of a stored contact.
#[derive(Clone, Copy, Debug, Default, PartialEq, Eq, Structural)]
pub struct ContactId(pub u128);

/// An identifier in its text form, as forms and paths carry it.
#[derive(Clone, Debug)]
pub struct ContactStringId {
    pub id: String,
}

impl ContactId {
    /// The identifier of the UUID with value `value`.
    pub fn from_u128(value: u128) -> (r: ContactId)
        ensures
            r.0 == value,
    {
        ContactId(value)
    }

    /// The identifier's text form.
    pub fn to_text(&self) -> (r: String)
        ensures
            r@ == uuid_text_of(self.0),
            r@.len() == 36,
            forall|i: int| 0 <= i < r@.len() ==> is_uuid_char(#[trigger] r@[i]),
    {
        uuid_to_text(self.0)
    }

    /// Reads an identifier from its text form.
    pub fn parse(s: &str) -> (r: Result<ContactId, UuidError>)
        ensures
            r matches Ok(id) ==> uuid_parsed(s@) == Some(id.0),
            r is Err <==> uuid_parsed(s@) is None,
    {
        match uuid_from_text(s) {
            Ok(v) => Ok(ContactId(v)),
            Err(e) => Err(e),
        }
    }

    /// Reads an identifier back from its text form.
    pub fn try_from_string(value: ContactStringId) -> (r: Result<ContactId, UuidError>)
        ensures
            r matches Ok(id) ==> uuid_parsed(value.id@) == Some(id.0),
            r is Err <==> uuid_parsed(value.id@) is None,
    {
        ContactId::parse(value.id.as_str())
    }
}

impl ContactStringId {
    /// The text form of `value`.
    pub fn from_id(value: ContactId) -> (r: ContactStringId)
        ensures
            r.id@ == uuid_text_of(value.0),
    {
        ContactStringId { id: value.to_text() }
    }
}

/// A stored contact.
pub struct Contact {
    pub id: ContactId,
    pub first: String,
    pub last: String,
    pub phone: String,
    pub email: String,
}

/// The fields of a contact about to be created or updated.
pub struct ContactCandidate {
    pub first: String,
    pub last: String,
    pub phone: String,
    pub email: String,
}

} // verus!
