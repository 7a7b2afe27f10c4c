//! Byte-level helpers: appending fixed-size byte arrays and little-endian
//! integers to a message buffer, and comparing 32-byte digests.

use vstd::bytes::{spec_u64_to_le_bytes, u64_to_le_bytes};
use vstd::prelude::*;

verus! {

/// Appends the bytes of a fixed-size array to `dst`.
pub fn push_bytes<const N: usize>(dst: &mut Vec<u8>, src: &[u8; N])
    ensures
        final(dst)@ == old(dst)@ + src@,
{
    let mut i: usize = 0;
    while i < N
        invariant
            i <= N,
            dst@ == old(dst)@ + src@.take(i as int),
        decreases N - i,
    {
        dst.push(src[i]);
        assert(src@.take(i + 1) =~= src@.take(i as int).push(src@[i as int]));
        i += 1;
    }
    assert(src@.take(N as int) =~= src@);
}

/// Appends the fixed-width little-endian encoding of `x` to `dst`.
pub fn push_u64_le(dst: &mut Vec<u8>, x: u64)
    ensures
        final(dst)@ == old(dst)@ + spec_u64_to_le_bytes(x),
{
    let mut le = u64_to_le_bytes(x);
    dst.append(&mut le);
}

/// Byte-for-byte equality of two 32-byte digests.
pub fn bytes32_eq(a: &[u8; 32], b: &[u8; 32]) -> (r: bool)
    ensures
        r == (a@ == b@),
{
    let mut i: usize = 0;
    while i < 32
        invariant
            i <= 32,
            forall|k: int| 0 <= k < i ==> a@[k] == b@[k],
        decreases 32 - i,
    {
        if a[i] != b[i] {
            return false;
        }
        i += 1;
    }
    assert(a@ =~= b@);
    true
}

} // verus!
