//! Verified helpers for byte buffers.
//!
//! Signed messages and hash inputs are built by concatenating byte strings;
//! hashes are compared byte for byte. These helpers give those operations
//! exact contracts.

use vstd::prelude::*;

verus! {

/// Append every byte of `src` to `dst`.
pub fn append_bytes(dst: &mut Vec<u8>, src: &Vec<u8>)
    ensures
        final(dst)@ == old(dst)@ + src@,
{
    let ghost dst0: Seq<u8> = dst@;
    let n = src.len();
    assert(dst@ =~= dst0 + src@.take(0));
    for i in 0..n
        invariant
            n == src@.len(),
            dst@ == dst0 + src@.take(i as int),
    {
        dst.push(src[i]);
        assert(dst@ =~= dst0 + src@.take(i as int + 1));
    }
    assert(dst0 + src@.take(n as int) =~= dst0 + src@);
}

/// Whether two byte strings are equal.
pub fn bytes_eq(a: &Vec<u8>, b: &Vec<u8>) -> (r: bool)
    ensures
        r <==> a@ == b@,
{
    if a.len() != b.len() {
        proof {
            assert(a@.len() != b@.len());
        }
        return false;
    }
    let n = a.len();
    for i in 0..n
        invariant
            n == a@.len() == b@.len(),
            forall|j: int| 0 <= j < i ==> a@[j] == b@[j],
    {
        if a[i] != b[i] {
            return false;
        }
    }
    proof {
        assert(a@ =~= b@);
    }
    true
}

/// Whether every byte of `a` is zero.
pub fn bytes_all_zero(a: &Vec<u8>) -> (r: bool)
    ensures
        r <==> (forall|j: int| 0 <= j < a@.len() ==> a@[j] == 0),
{
    let n = a.len();
    for i in 0..n
        invariant
            n == a@.len(),
            forall|j: int| 0 <= j < i ==> a@[j] == 0,
    {
        if a[i] != 0 {
            return false;
        }
    }
    true
}

/// Copy a byte string.
pub fn copy_bytes(src: &Vec<u8>) -> (r: Vec<u8>)
    ensures
        r@ == src@,
{
    let mut r: Vec<u8> = Vec::new();
    append_bytes(&mut r, src);
    assert(r@ =~= src@);
    r
}

/// Copy the bytes of `src` from `start` (inclusive) to `end` (exclusive).
pub fn copy_range(src: &Vec<u8>, start: usize, end: usize) -> (r: Vec<u8>)
    requires
        start <= end <= src@.len(),
    ensures
        r@ == src@.subrange(start as int, end as int),
{
    let mut r: Vec<u8> = Vec::new();
    for i in start..end
        invariant
            start <= i <= end <= src@.len(),
            r@ == src@.subrange(start as int, i as int),
    {
        r.push(src[i]);
        assert(r@ =~= src@.subrange(start as int, i as int + 1));
    }
    r
}

} // verus!
