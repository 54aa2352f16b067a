//! The random source behind the random-byte instruction.
use vstd::prelude::*;

verus! {

#[verifier::external_type_specification]
#[verifier::external_body]
pub struct ExRandomError(getrandom::Error);

/// Relies on getrandom::getrandom: fills a one-byte buffer from the system's
/// random source, or returns the error that the source reported.
#[verifier::external_body]
fn fill_byte() -> (r: Result<u8, getrandom::Error>) {
    let mut buf = [0u8; 1];
    match getrandom::getrandom(&mut buf) {
        Ok(()) => Ok(buf[0]),
        Err(e) => Err(e),
    }
}

/// The byte that a draw from the random source yields: the byte drawn, or
/// 0 when the source failed (the machine then runs degraded).
pub fn byte_or_zero(r: Result<u8, getrandom::Error>) -> (b: u8)
    ensures
        r is Ok ==> b == r->Ok_0,
        r is Err ==> b == 0,
{
    match r {
        Ok(b) => b,
        Err(_) => 0,
    }
}

/// A byte from the system's random source, or 0 when the source fails.
pub fn random_byte() -> u8 {
    byte_or_zero(fill_byte())
}

} // verus!
