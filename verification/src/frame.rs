//! The three kinds of CAN frame and their byte layouts.

use vstd::prelude::*;
use crate::constants::{CAN_EFF_FLAG, CAN_EFF_MASK, CAN_ERR_FLAG, CAN_SFF_MASK};

pub mod classic;
pub mod fd;
pub mod xl;

verus! {

/// An identifier with flags keeps to its format: with the extended flag or
/// the error flag the low 29 bits are free, without them the number fits in
/// 11 bits.
pub open spec fn id_in_format(id: u32) -> bool {
    id & CAN_EFF_FLAG != 0 || id & CAN_ERR_FLAG != 0 || id & CAN_EFF_MASK <= CAN_SFF_MASK
}

/// Tells whether an identifier with flags keeps to its format.
pub fn id_within_format(id: u32) -> (ok: bool)
    ensures
        ok == id_in_format(id),
{
    id & CAN_EFF_FLAG != 0 || id & CAN_ERR_FLAG != 0 || id & CAN_EFF_MASK <= CAN_SFF_MASK
}

/// Appends the first `n` bytes of `data` to `out`.
pub(crate) fn push_prefix(out: &mut Vec<u8>, data: &[u8], n: usize)
    requires
        n <= data@.len(),
    ensures
        final(out)@ == old(out)@ + data@.subrange(0, n as int),
{
    let mut i: usize = 0;
    while i < n
        invariant
            i <= n <= data@.len(),
            out@ == old(out)@ + data@.subrange(0, i as int),
        decreases n - i,
    {
        out.push(data[i]);
        i += 1;
        assert(out@ =~= old(out)@ + data@.subrange(0, i as int));
    }
}

/// Copies the `n` bytes of `bytes` that start at offset `at` to the front of
/// an array of zeros.
pub(crate) fn take_padded<const N: usize>(bytes: &[u8], at: usize, n: usize) -> (r: [u8; N])
    requires
        n <= N,
        at + n <= bytes@.len(),
    ensures
        r@ == bytes@.subrange(at as int, at + n) + Seq::new((N - n) as nat, |i: int| 0u8),
{
    let mut r: [u8; N] = [0u8; N];
    let len: usize = bytes.len();
    let mut i: usize = 0;
    while i < n
        invariant
            i <= n <= N,
            at + n <= bytes@.len(),
            len == bytes@.len(),
            forall|j: int| 0 <= j < i ==> r@[j] == bytes@[at + j],
            forall|j: int| i <= j < N ==> r@[j] == 0u8,
        decreases n - i,
    {
        r[i] = bytes[at + i];
        i += 1;
    }
    assert(r@ =~= bytes@.subrange(at as int, at + n) + Seq::new((N - n) as nat, |i: int| 0u8));
    r
}

/// Copies the `N` bytes of `bytes` that start at offset `at`.
pub(crate) fn take_array<const N: usize>(bytes: &[u8], at: usize) -> (r: [u8; N])
    requires
        at + N <= bytes@.len(),
    ensures
        r@ == bytes@.subrange(at as int, at + N),
{
    let r: [u8; N] = take_padded::<N>(bytes, at, N);
    assert(r@ =~= bytes@.subrange(at as int, at + N));
    r
}

} // verus!
