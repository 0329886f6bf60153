//! Random bytes from the operating system's generator.
use vstd::prelude::*;
use rand::RngCore;

verus! {

/// `n` random bytes: `rand::thread_rng()` and `RngCore::fill_bytes` on a
/// buffer of `n` zeros. Only the length is stated: the bytes are chance.
#[verifier::external_body]
pub(crate) fn random_bytes(n: usize) -> (r: Vec<u8>)
    ensures
        r@.len() == n,
{
    let mut buf = vec![0u8; n];
    rand::thread_rng().fill_bytes(&mut buf);
    buf
}

} // verus!
