//! Identifier generation and formatting.
//!
//! Entities carry opaque 128-bit identifiers. Drawing a fresh one and
//! rendering one as text are delegated to the `uuid` crate.

use vstd::prelude::*;

verus! {

/// The text the `uuid` crate renders for a given 128-bit value: the
/// hyphenated, lower-case hexadecimal form. It depends on the value alone.
pub uninterp spec fn uuid_text_of(id: u128) -> Seq<char>;

/// Relies on `uuid::Uuid::new_v4`: a freshly drawn random identifier.
/// Nothing is promised of the value.
#[verifier::external_body]
pub(crate) fn fresh_id() -> u128 {
    uuid::Uuid::new_v4().as_u128()
}

/// Relies on `uuid::Uuid::from_u128` and the `Display` impl of `Uuid`:
/// the hyphenated form of the big-endian bytes of `id`, 36 characters long.
#[verifier::external_body]
pub fn id_text(id: u128) -> (r: String)
    ensures
        r@ == uuid_text_of(id),
        r@.len() == 36,
{
    uuid::Uuid::from_u128(id).to_string()
}

} // verus!
