//! Small helpers on plain buffers.

use vstd::prelude::*;

verus! {

/// Whether two byte strings hold the same bytes.
pub fn compare_bytes(a: &Vec<u8>, b: &Vec<u8>) -> (r: bool)
    ensures
        r == (a@ == b@),
{
    if a.len() != b.len() {
        assert(a@ != b@);
        return false;
    }
    let n = a.len();
    let mut i: usize = 0;
    while i < n
        invariant
            n == a@.len() && n == b@.len(),
            0 <= i <= n,
            forall|j: int| 0 <= j < i ==> a@[j] == b@[j],
        decreases n - i,
    {
        if a[i] != b[i] {
            assert(a@ != b@);
            return false;
        }
        i = i + 1;
    }
    assert(a@ =~= b@);
    true
}

/// An owned copy of a byte string.
pub fn copy_bytes(a: &Vec<u8>) -> (r: Vec<u8>)
    ensures
        r@ == a@,
{
    let n = a.len();
    let mut out: Vec<u8> = Vec::new();
    let mut i: usize = 0;
    while i < n
        invariant
            n == a@.len(),
            0 <= i <= n,
            out@ == a@.take(i as int),
        decreases n - i,
    {
        out.push(a[i]);
        assert(out@ =~= a@.take(i + 1));
        i = i + 1;
    }
    assert(a@.take(n as int) =~= a@);
    out
}

/// An owned copy of an array of 32-bit integers.
pub fn copy_i32s(a: &Vec<i32>) -> (r: Vec<i32>)
    ensures
        r@ == a@,
{
    let n = a.len();
    let mut out: Vec<i32> = Vec::new();
    let mut i: usize = 0;
    while i < n
        invariant
            n == a@.len(),
            0 <= i <= n,
            out@ == a@.take(i as int),
        decreases n - i,
    {
        out.push(a[i]);
        assert(out@ =~= a@.take(i + 1));
        i = i + 1;
    }
    assert(a@.take(n as int) =~= a@);
    out
}

/// An owned copy of a range of an array of copyable values.
pub fn copy_range<T: Copy>(a: &Vec<T>, start: usize, end: usize) -> (r: Vec<T>)
    requires
        start <= end <= a@.len(),
    ensures
        r@ == a@.subrange(start as int, end as int),
{
    let mut out: Vec<T> = Vec::new();
    let mut i: usize = start;
    while i < end
        invariant
            start <= i <= end <= a@.len(),
            out@ == a@.subrange(start as int, i as int),
        decreases end - i,
    {
        out.push(a[i]);
        assert(out@ =~= a@.subrange(start as int, i + 1));
        i = i + 1;
    }
    out
}

/// Appends a copy of every element of `src` to `dst`.
pub fn extend_with<T: Copy>(dst: &mut Vec<T>, src: &Vec<T>)
    ensures
        final(dst)@ == old(dst)@ + src@,
{
    let n = src.len();
    let mut i: usize = 0;
    while i < n
        invariant
            n == src@.len(),
            0 <= i <= n,
            dst@ == old(dst)@ + src@.take(i as int),
        decreases n - i,
    {
        dst.push(src[i]);
        assert(dst@ =~= old(dst)@ + src@.take(i + 1));
        i = i + 1;
    }
    assert(dst@ =~= old(dst)@ + src@);
}

} // verus!
