//! Identifier generation for todo records.
//!
//! The store keys each record by a freshly drawn 128-bit value and shows the
//! client the canonical hyphenated text of that value. Both steps are done by
//! the `uuid` crate; the text of a key is named by the uninterpreted function
//! [`uuid_text`], and everything the logic needs of it is stated on the
//! trusted wrappers below.

use vstd::prelude::*;

verus! {

/// The canonical hyphenated text of a 128-bit identifier, as `uuid` renders
/// it. The rendering is a fixed function of the key value alone.
pub uninterp spec fn uuid_text(key: u128) -> Seq<char>;

/// Relies on `uuid::Uuid::new_v4` and `Uuid::as_u128`: draws a random
/// version-4 identifier and returns its 128-bit value. The result is random,
/// so nothing is promised of it.
#[verifier::external_body]
pub(crate) fn new_todo_key() -> u128 {
    uuid::Uuid::new_v4().as_u128()
}

/// Relies on `uuid::Uuid::from_u128` and the `Display` impl of `Uuid`: the
/// hyphenated form is 36 characters, is a function of the key value alone,
/// and encodes all 128 bits, so distinct keys render to distinct strings.
#[verifier::external_body]
pub(crate) fn format_todo_key(key: u128) -> (s: String)
    ensures
        s@ == uuid_text(key),
        s@.len() == 36,
        forall|other: u128| uuid_text(other) == s@ ==> other == key,
{
    uuid::Uuid::from_u128(key).to_string()
}

} // verus!
