//! The values that the contact pages render and the forms they read.
use crate::contact::ContactCandidate;
use vstd::prelude::*;

pub mod email;
pub mod form;

verus! {

/// The messages shown beside each field of a contact form; empty where the
/// field is fine.
#[derive(Clone, Default)]
pub struct ContactFieldErrors {
    pub first: String,
    pub last: String,
    pub phone: String,
    pub email: String,
}

/// A contact as a form shows it, with the messages for its fields.
#[derive(Clone, Default)]
pub struct Contact {
    pub id: i64,
    pub first: String,
    pub last: String,
    pub phone: String,
    pub email: String,
    pub errors: ContactFieldErrors,
}

/// The rows of the contact list for one page of one search.
pub struct Rows {
    pub contacts: Vec<Contact>,
    pub search_term: Option<String>,
    pub page: u64,
}

/// The query of the contact list: a search term and a page number.
pub struct Params {
    pub q: Option<String>,
    pub page: Option<u64>,
}

/// The contacts selected for deletion.
pub struct DeleteForm {
    pub selected_contact_ids: Vec<i64>,
}

/// The form shown again when saving `candidate` as contact `id` failed
/// because another contact has its email: the fields as typed, and a message
/// beside the email.
pub fn duplicate_email_form(id: i64, candidate: ContactCandidate) -> (r: Contact)
    ensures
        r.id == id,
        r.first@ == candidate.first@,
        r.last@ == candidate.last@,
        r.phone@ == candidate.phone@,
        r.email@ == candidate.email@,
        r.errors.email@ == "Email already exists"@,
        r.errors.first@.len() == 0,
        r.errors.last@.len() == 0,
        r.errors.phone@.len() == 0,
{
    Contact {
        id,
        first: candidate.first,
        last: candidate.last,
        phone: candidate.phone,
        email: candidate.email,
        errors: ContactFieldErrors {
            first: String::new(),
            last: String::new(),
            phone: String::new(),
            email: String::from_str("Email already exists"),
        },
    }
}

} // verus!
