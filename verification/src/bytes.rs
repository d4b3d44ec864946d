//! Byte-level helpers: little-endian integer encoding and fixed-size
//! byte-array comparison.
//!
//! Authorization messages are the operation parameters serialized as the
//! little-endian concatenation of their integer fields; identities are
//! compared byte for byte.

use vstd::bytes::{spec_u64_to_le_bytes, u64_to_le_bytes};
use vstd::prelude::*;

verus! {

/// The two's-complement reinterpretation of a signed 64-bit value as an
/// unsigned one.
pub open spec fn i64_as_u64(x: i64) -> u64 {
    if x >= 0 {
        x as u64
    } else {
        (x + 0x1_0000_0000_0000_0000) as u64
    }
}

/// The 8-byte little-endian encoding of a signed 64-bit value (two's
/// complement).
pub open spec fn spec_i64_to_le_bytes(x: i64) -> Seq<u8> {
    spec_u64_to_le_bytes(i64_as_u64(x))
}

/// Computes the two's-complement reinterpretation of `x` without a
/// truncating cast.
pub fn i64_twos_complement(x: i64) -> (r: u64)
    ensures
        r == i64_as_u64(x),
{
    if x >= 0 {
        x as u64
    } else {
        let positive: i64 = -(x + 1);
        u64::MAX - (positive as u64)
    }
}

/// Appends the 8-byte little-endian encoding of `x` to `out`.
pub fn push_u64_le(out: &mut Vec<u8>, x: u64)
    ensures
        final(out)@ == old(out)@ + spec_u64_to_le_bytes(x),
{
    let mut encoded = u64_to_le_bytes(x);
    out.append(&mut encoded);
}

/// Appends the 8-byte little-endian two's-complement encoding of `x` to
/// `out`.
pub fn push_i64_le(out: &mut Vec<u8>, x: i64)
    ensures
        final(out)@ == old(out)@ + spec_i64_to_le_bytes(x),
{
    push_u64_le(out, i64_twos_complement(x));
}

/// Byte-for-byte equality of two fixed-size byte arrays.
pub fn bytes_eq<const N: usize>(a: &[u8; N], b: &[u8; N]) -> (r: bool)
    ensures
        r == (a@ == b@),
{
    let mut i: usize = 0;
    while i < N
        invariant
            0 <= i <= N,
            forall|k: int| 0 <= k < i ==> a@[k] == b@[k],
        decreases N - i,
    {
        if a[i] != b[i] {
            assert(a@[i as int] != b@[i as int]);
            return false;
        }
        i += 1;
    }
    assert(a@ =~= b@);
    true
}

} // verus!
