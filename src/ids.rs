use vstd::prelude::*;

verus! {

/// A fresh random session id, in the hyphenated form of a version 4 UUID.
///
/// Relies on `uuid::Uuid::new_v4` for the random value and on its `Display`
/// impl, which writes the 36-character hyphenated form.
#[verifier::external_body]
pub(crate) fn random_session_id() -> (r: String)
    ensures
        r@.len() == 36,
{
    uuid::Uuid::new_v4().to_string()
}

} // verus!
