//! Random identifiers.
use vstd::prelude::*;

verus! {

/// A random `u32`, from `rand::random`; nothing is known of the value.
#[verifier::external_body]
pub(crate) fn random_u32() -> u32 {
    rand::random::<u32>()
}

} // verus!
