//! Whether an email typed into a contact form is already taken.
use crate::contact::ContactId;
use vstd::prelude::*;

verus! {

/// The query of the email check.
pub struct Params {
    pub email: String,
}

/// Whether the email is free for contact `id`, given the contact that the
/// store holds under that email, if any: it is free unless another contact
/// has it.
pub fn email_is_free(id: ContactId, holder: Option<ContactId>) -> (r: bool)
    ensures
        r == match holder {
            Some(h) => h == id,
            None => true,
        },
{
    match holder {
        Some(h) => h == id,
        None => true,
    }
}

} // verus!
