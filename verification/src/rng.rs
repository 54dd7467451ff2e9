//! Trusted calls into the random sources: the two independent byte providers
//! consumed by mixing, and the draw generator used by the data-collection
//! helpers.

use vstd::prelude::*;

verus! {

/// Relies on rand's `thread_rng` and `RngCore::fill_bytes`: the buffer is
/// filled completely, so exactly `len` bytes come back. Nothing can be
/// promised of their values.
#[verifier::external_body]
pub(crate) fn rand_random_bytes(len: usize) -> (r: Vec<u8>)
    ensures
        r@.len() == len,
{
    let mut buf = vec![0u8; len];
    rand::RngCore::fill_bytes(&mut rand::thread_rng(), &mut buf);
    buf
}

/// Relies on ring's `SystemRandom` and `SecureRandom::fill`: on success the
/// buffer is filled completely, so exactly `len` bytes come back; on failure
/// ring reports an unspecified error. Nothing can be promised of the values.
#[verifier::external_body]
pub(crate) fn ring_random_bytes(len: usize) -> (r: Result<Vec<u8>, ()>)
    ensures
        r matches Ok(v) ==> v@.len() == len,
{
    let mut buf = vec![0u8; len];
    let sys_random = ring::rand::SystemRandom::new();
    match ring::rand::SecureRandom::fill(&sys_random, &mut buf) {
        Ok(()) => Ok(buf),
        Err(_) => Err(()),
    }
}

/// Relies on rand's `Rng::gen_range`: for a non-empty range `1..=sides` it
/// returns a value inside that range. Nothing can be promised of which one.
#[verifier::external_body]
pub(crate) fn rand_range_one_to(sides: u64) -> (r: u64)
    requires
        1 <= sides < u64::MAX,
    ensures
        1 <= r <= sides,
{
    rand::Rng::gen_range(&mut rand::thread_rng(), 1..sides + 1)
}

} // verus!
