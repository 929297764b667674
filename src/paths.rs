//! The typed routes of the contact pages, as plain values.
use vstd::prelude::*;

verus! {

/// The contact list.
pub struct Contacts;

/// The form that edits contact `id`.
pub struct EditContact {
    pub id: i64,
}

/// The page of contact `id`.
pub struct Contact {
    pub id: i64,
}

/// The form that creates a contact.
pub struct NewContact;

/// The check of whether an email is taken, for contact `id`.
pub struct ContactEmail {
    pub id: i64,
}

impl EditContact {
    pub fn new(id: &i64) -> (r: EditContact)
        ensures
            r.id == *id,
    {
        EditContact { id: *id }
    }
}

impl Contact {
    pub fn new(id: &i64) -> (r: Contact)
        ensures
            r.id == *id,
    {
        Contact { id: *id }
    }
}

impl ContactEmail {
    pub fn new(id: &i64) -> (r: ContactEmail)
        ensures
            r.id == *id,
    {
        ContactEmail { id: *id }
    }
}

} // verus!
