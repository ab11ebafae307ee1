//! Where secret bytes come from, and how they leave memory.

use vstd::prelude::*;
use rand::RngCore;
use zeroize::Zeroize;

verus! {

/// Every byte is zero.
pub open spec fn wiped(bytes: Seq<u8>) -> bool {
    forall|i: int| 0 <= i < bytes.len() ==> bytes[i] == 0u8
}

/// `RngCore::fill_bytes` on `rand::thread_rng()`: overwrites the array with
/// bytes from the thread's cryptographically secure generator.
///
/// Nothing is claimed of the bytes. The generator seeds itself from the
/// operating system on first use and gives up, by panicking, only where the
/// system has no entropy to offer.
#[verifier::external_body]
pub(crate) fn fill_random<const N: usize>(bytes: &mut [u8; N]) {
    rand::thread_rng().fill_bytes(bytes);
}

/// `Zeroize::zeroize` on an array of bytes: every byte is overwritten with
/// zero, by writes that the compiler may not remove.
#[verifier::external_body]
pub(crate) fn wipe_key(key: &mut [u8; 32])
    ensures
        wiped(final(key)@),
{
    key.zeroize();
}

/// `Zeroize::zeroize` on a vector of bytes: the bytes and the spare
/// capacity are overwritten with zero, and the vector is left empty.
#[verifier::external_body]
pub(crate) fn wipe(bytes: &mut Vec<u8>)
    ensures
        final(bytes)@.len() == 0,
{
    bytes.zeroize();
}

} // verus!
