//! Generation of opaque identifiers, session tokens and verification codes.
//!
//! Identifiers and tokens are collision-resistant random strings produced
//! by an outside generator; nothing is promised about their values, so the
//! rest of the library is verified for every identifier the generator may
//! return.

use vstd::prelude::*;

verus! {

/// Relies on cuid2::create_id: a fresh opaque identifier. The result is
/// random, so nothing is promised about it.
#[verifier::external_body]
pub(crate) fn new_id() -> String {
    cuid2::create_id()
}

/// Relies on rand::random_range: a uniform sample of the given inclusive
/// range, which here is the space of 5-digit verification codes.
#[verifier::external_body]
pub(crate) fn random_verification_code() -> (r: u64)
    ensures
        10000 <= r <= 99999,
{
    rand::random_range(10000..=99999u64)
}

} // verus!
