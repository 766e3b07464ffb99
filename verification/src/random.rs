//! Random bytes from the operating system.
use vstd::prelude::*;

verus! {

#[verifier::external_type_specification]
#[verifier::external_body]
pub struct ExRandomError(getrandom::Error);

/// Calls `getrandom::fill` on the buffer; what it writes is random, so
/// nothing is stated of it.
#[verifier::external_body]
pub(crate) fn fill_random<const N: usize>(buffer: &mut [u8; N]) -> (r: Result<(), getrandom::Error>) {
    getrandom::fill(buffer)
}

} // verus!
