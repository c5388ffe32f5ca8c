//! Byte-range primitives the allocator relies on: fixed-pattern fill, copy
//! into a range, and an equality comparison that examines every byte of the
//! range (no early exit on the first difference, in the manner of a
//! constant-time comparison).

use vstd::prelude::*;

verus! {

/// Overwrites `len` bytes of `buf` starting at `off` with `val`; all other
/// bytes are unchanged.
pub fn fill_range(buf: &mut Vec<u8>, off: usize, len: usize, val: u8)
    requires
        off + len <= old(buf)@.len(),
    ensures
        final(buf)@.len() == old(buf)@.len(),
        forall|i: int| off <= i < off + len ==> final(buf)@[i] == val,
        forall|i: int|
            0 <= i < old(buf)@.len() && !(off <= i < off + len) ==> final(buf)@[i] == old(buf)@[i],
{
    let n: usize = buf.len();
    let mut i: usize = 0;
    while i < len
        invariant
            i <= len,
            off + len <= n <= usize::MAX,
            off + len <= buf@.len(),
            buf@.len() == old(buf)@.len(),
            forall|j: int| off <= j < off + i ==> buf@[j] == val,
            forall|j: int|
                0 <= j < old(buf)@.len() && !(off <= j < off + i) ==> buf@[j] == old(buf)@[j],
        decreases len - i,
    {
        buf.set(off + i, val);
        i = i + 1;
    }
}

/// Copies all of `src` into `buf` starting at `off`; all other bytes are
/// unchanged.
pub fn copy_into(buf: &mut Vec<u8>, off: usize, src: &Vec<u8>)
    requires
        off + src@.len() <= old(buf)@.len(),
    ensures
        final(buf)@.len() == old(buf)@.len(),
        forall|i: int| 0 <= i < src@.len() ==> final(buf)@[off + i] == src@[i],
        forall|i: int|
            0 <= i < old(buf)@.len() && !(off <= i < off + src@.len())
                ==> final(buf)@[i] == old(buf)@[i],
{
    let n: usize = buf.len();
    let mut i: usize = 0;
    while i < src.len()
        invariant
            i <= src@.len(),
            off + src@.len() <= n <= usize::MAX,
            off + src@.len() <= buf@.len(),
            buf@.len() == old(buf)@.len(),
            forall|j: int| 0 <= j < i ==> buf@[off + j] == src@[j],
            forall|j: int|
                0 <= j < old(buf)@.len() && !(off <= j < off + i) ==> buf@[j] == old(buf)@[j],
        decreases src@.len() - i,
    {
        let b: u8 = src[i];
        buf.set(off + i, b);
        i = i + 1;
    }
}

/// Returns a copy of `src` with the same contents.
pub fn copy_vec(src: &Vec<u8>) -> (r: Vec<u8>)
    ensures
        r@ == src@,
{
    let mut r: Vec<u8> = Vec::new();
    let mut i: usize = 0;
    while i < src.len()
        invariant
            i <= src@.len(),
            r@ == src@.subrange(0, i as int),
        decreases src@.len() - i,
    {
        r.push(src[i]);
        proof {
            assert(r@ =~= src@.subrange(0, i + 1));
        }
        i = i + 1;
    }
    proof {
        assert(src@.subrange(0, src@.len() as int) =~= src@);
    }
    r
}

/// Compares `len` bytes of `a` starting at `a_off` with the first `len` bytes
/// of `b`. Every byte of the range is examined and folded into an accumulator,
/// so the running time does not depend on where the ranges first differ.
pub fn ct_eq_range(a: &Vec<u8>, a_off: usize, b: &Vec<u8>, len: usize) -> (r: bool)
    requires
        a_off + len <= a@.len(),
        len <= b@.len(),
    ensures
        r <==> (forall|i: int| 0 <= i < len ==> a@[a_off + i] == b@[i]),
{
    let n: usize = a.len();
    let mut acc: u8 = 0;
    let mut i: usize = 0;
    while i < len
        invariant
            i <= len,
            a_off + len <= n <= usize::MAX,
            a_off + len <= a@.len(),
            len <= b@.len(),
            (acc == 0) <==> (forall|j: int| 0 <= j < i ==> a@[a_off + j] == b@[j]),
        decreases len - i,
    {
        let x: u8 = a[a_off + i];
        let y: u8 = b[i];
        let d: u8 = x ^ y;
        proof {
            assert((acc | d) == 0 <==> (acc == 0 && x == y)) by (bit_vector)
                requires
                    d == x ^ y;
        }
        acc = acc | d;
        i = i + 1;
    }
    acc == 0
}

/// Compares two byte buffers of equal length, examining every byte.
pub fn memeq(a: &Vec<u8>, b: &Vec<u8>) -> (r: bool)
    requires
        a@.len() == b@.len(),
    ensures
        r <==> a@ == b@,
{
    let r = ct_eq_range(a, 0, b, a.len());
    proof {
        if r {
            assert(a@ =~= b@);
        }
    }
    r
}

/// Overwrites `len` bytes of `buf` starting at `off` with zeros; all other
/// bytes are unchanged.
pub fn memzero(buf: &mut Vec<u8>, off: usize, len: usize)
    requires
        off + len <= old(buf)@.len(),
    ensures
        final(buf)@.len() == old(buf)@.len(),
        forall|i: int| off <= i < off + len ==> final(buf)@[i] == 0,
        forall|i: int|
            0 <= i < old(buf)@.len() && !(off <= i < off + len) ==> final(buf)@[i] == old(buf)@[i],
{
    fill_range(buf, off, len, 0);
}

} // verus!
