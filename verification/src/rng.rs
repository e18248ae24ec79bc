//! The source of random bytes.

use vstd::prelude::*;

verus! {

/// `fastrand::u8` over the whole range of a byte, from the thread's
/// generator. Nothing is claimed of the byte that comes back: two calls
/// may differ, and every value is possible.
#[verifier::external_body]
pub(crate) fn random_byte() -> (byte: u8) {
    fastrand::u8(0..=u8::MAX)
}

} // verus!
