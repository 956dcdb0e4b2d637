//! Random payloads for binary fixtures.

use rand::RngCore;
use vstd::prelude::*;

verus! {

/// `RngCore::fill_bytes` on `rand::thread_rng()`: overwrites the whole of
/// `buf` with bytes from the thread-local generator.
///
/// Nothing is claimed of the bytes themselves, only that the buffer keeps
/// its length. The generator aborts the thread if the operating system
/// cannot seed it.
#[verifier::external_body]
fn fill_random(buf: &mut Vec<u8>)
    ensures
        final(buf)@.len() == old(buf)@.len(),
{
    rand::thread_rng().fill_bytes(buf.as_mut_slice());
}

/// A fresh buffer of `len` random bytes.
pub fn random_bytes(len: usize) -> (out: Vec<u8>)
    ensures
        out@.len() == len,
{
    let mut out: Vec<u8> = vec![0u8; len];
    fill_random(&mut out);
    out
}

} // verus!
