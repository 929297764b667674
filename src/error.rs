use std::sync::Arc;
use vstd::prelude::*;

verus! {

/// What can go wrong in the model layer: a store failure, an I/O failure
/// while exporting, or a broken channel to the archiver.
#[derive(Debug)]
pub enum Error {
    DuplicateEmail,
    Database(String),
    Io(String),
    ArchiverNotReturn,
    CommandSendFailed,
}

/// The message shown for `e`.
pub open spec fn message_of(e: Error) -> Seq<char> {
    match e {
        Error::DuplicateEmail => "contact with this email already exists"@,
        Error::Database(_) => "unknown database error"@,
        Error::Io(_) => "unknown io error"@,
        Error::ArchiverNotReturn => "Couldn't get answer from archiver"@,
        Error::CommandSendFailed => "Couldn't send command to archiver"@,
    }
}

impl Error {
    /// A message for people to read.
    pub fn message(&self) -> (r: String)
        ensures
            r@ == message_of(*self),
    {
        match self {
            Error::DuplicateEmail => String::from_str("contact with this email already exists"),
            Error::Database(_) => String::from_str("unknown database error"),
            Error::Io(_) => String::from_str("unknown io error"),
            Error::ArchiverNotReturn => String::from_str("Couldn't get answer from archiver"),
            Error::CommandSendFailed => String::from_str("Couldn't send command to archiver"),
        }
    }
}

/// An error that many status readers may observe at once; it is never mutated.
pub type SharedError = Arc<Error>;

/// Relies on `Arc::clone`: the new handle points at the same value.
#[verifier::external_body]
pub(crate) fn share(e: &SharedError) -> (r: SharedError)
    ensures
        r == *e,
{
    Arc::clone(e)
}

/// Wraps an error so that it can be handed to many readers.
pub fn shared(e: Error) -> (r: SharedError)
    ensures
        *r == e,
{
    Arc::new(e)
}

} // verus!
