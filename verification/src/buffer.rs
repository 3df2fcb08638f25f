//! Block-buffer helpers.
//!
//! A block read fills a caller-provided byte buffer whose length fixes the
//! block size. The buffer is zero-filled before the transfer so that every
//! byte a caller can ever observe is deterministic, even when the transfer
//! fails partway.

use vstd::prelude::*;

verus! {

/// A sequence of `n` zero bytes.
pub open spec fn zeros(n: nat) -> Seq<u8> {
    Seq::new(n, |i: int| 0u8)
}

/// Overwrites every byte of `buf` with zero, keeping its length.
pub fn zero_fill(buf: &mut Vec<u8>)
    ensures
        final(buf)@ == zeros(old(buf)@.len()),
        final(buf)@.len() == old(buf)@.len(),
{
    let ghost n0 = buf@.len();
    let n = buf.len();
    let mut i: usize = 0;
    while i < n
        invariant
            buf@.len() == n0,
            n == n0,
            i <= n,
            forall|j: int| 0 <= j < i ==> buf@[j] == 0u8,
        decreases n - i,
    {
        buf.set(i, 0);
        i += 1;
    }
    proof {
        assert(buf@ =~= zeros(n0));
    }
}

/// A fresh buffer of `n` zero bytes.
pub fn zeroed(n: usize) -> (r: Vec<u8>)
    ensures
        r@ == zeros(n as nat),
        r@.len() == n,
{
    let mut buf: Vec<u8> = Vec::new();
    while buf.len() < n
        invariant
            buf@.len() <= n,
            forall|j: int| 0 <= j < buf@.len() ==> buf@[j] == 0u8,
        decreases n - buf@.len(),
    {
        buf.push(0);
    }
    proof {
        assert(buf@ =~= zeros(n as nat));
    }
    buf
}

/// An exact copy of `src`.
pub fn copy_bytes(src: &Vec<u8>) -> (r: Vec<u8>)
    ensures
        r@ == src@,
{
    let mut out: Vec<u8> = Vec::new();
    let mut i: usize = 0;
    while i < src.len()
        invariant
            i <= src@.len(),
            out@ =~= src@.subrange(0, i as int),
        decreases src@.len() - i,
    {
        out.push(src[i]);
        i += 1;
    }
    proof {
        assert(out@ =~= src@);
    }
    out
}

} // verus!
