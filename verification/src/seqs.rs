//! Sequence helpers shared by the byte-level parts of the library.
use vstd::prelude::*;

verus! {

/// `s` with the elements of `t` written over it starting at index `at`.
pub open spec fn splice<T>(s: Seq<T>, at: int, t: Seq<T>) -> Seq<T> {
    s.subrange(0, at) + t + s.subrange(at + t.len(), s.len() as int)
}

/// Copies `src[s0..s0 + n]` over `dst[d0..d0 + n]`.
pub fn copy_within_bounds(dst: &mut [u8], d0: usize, src: &[u8], s0: usize, n: usize)
    requires
        s0 + n <= src@.len(),
        d0 + n <= old(dst)@.len(),
    ensures
        final(dst)@ == splice(old(dst)@, d0 as int, src@.subrange(s0 as int, s0 + n)),
{
    let _dst_len = dst.len();
    let _src_len = src.len();
    let mut i: usize = 0;
    while i < n
        invariant
            i <= n,
            dst@.len() <= usize::MAX,
            src@.len() <= usize::MAX,
            s0 + n <= src@.len(),
            d0 + n <= dst@.len(),
            dst@.len() == old(dst)@.len(),
            dst@ == splice(old(dst)@, d0 as int, src@.subrange(s0 as int, s0 + i)),
        decreases n - i,
    {
        dst[d0 + i] = src[s0 + i];
        i = i + 1;
        assert(dst@ =~= splice(old(dst)@, d0 as int, src@.subrange(s0 as int, s0 + i)));
    }
}

/// Copies `src[s0..s0 + n]` over `dst[d0..d0 + n]` in a vector.
pub fn copy_into_vec(dst: &mut Vec<u8>, d0: usize, src: &[u8], s0: usize, n: usize)
    requires
        s0 + n <= src@.len(),
        d0 + n <= old(dst)@.len(),
    ensures
        final(dst)@ == splice(old(dst)@, d0 as int, src@.subrange(s0 as int, s0 + n)),
{
    let _dst_len = dst.len();
    let _src_len = src.len();
    let mut i: usize = 0;
    while i < n
        invariant
            i <= n,
            dst@.len() <= usize::MAX,
            src@.len() <= usize::MAX,
            s0 + n <= src@.len(),
            d0 + n <= dst@.len(),
            dst@.len() == old(dst)@.len(),
            dst@ == splice(old(dst)@, d0 as int, src@.subrange(s0 as int, s0 + i)),
        decreases n - i,
    {
        dst.set(d0 + i, src[s0 + i]);
        i = i + 1;
        assert(dst@ =~= splice(old(dst)@, d0 as int, src@.subrange(s0 as int, s0 + i)));
    }
}

/// Whether two byte strings are equal.
pub fn bytes_eq(a: &[u8], b: &[u8]) -> (r: bool)
    ensures
        r == (a@ == b@),
{
    if a.len() != b.len() {
        return false;
    }
    let mut i: usize = 0;
    while i < a.len()
        invariant
            a@.len() == b@.len(),
            i <= a@.len(),
            forall|k: int| 0 <= k < i ==> a@[k] == b@[k],
        decreases a@.len() - i,
    {
        if a[i] != b[i] {
            return false;
        }
        i = i + 1;
    }
    assert(a@ =~= b@);
    true
}

/// A copy of `s[from..to]`.
pub fn copy_range(s: &[u8], from: usize, to: usize) -> (v: Vec<u8>)
    requires
        from <= to <= s@.len(),
    ensures
        v@ == s@.subrange(from as int, to as int),
{
    let mut v: Vec<u8> = Vec::new();
    let mut i = from;
    while i < to
        invariant
            from <= i <= to <= s@.len(),
            v@ == s@.subrange(from as int, i as int),
        decreases to - i,
    {
        v.push(s[i]);
        i = i + 1;
        assert(v@ =~= s@.subrange(from as int, i as int));
    }
    v
}

/// `a` followed by `b`, appended to `out`.
pub fn extend_bytes(out: &mut Vec<u8>, b: &[u8])
    ensures
        final(out)@ == old(out)@ + b@,
{
    let mut i: usize = 0;
    while i < b.len()
        invariant
            i <= b@.len(),
            out@ == old(out)@ + b@.subrange(0, i as int),
        decreases b@.len() - i,
    {
        out.push(b[i]);
        i = i + 1;
        assert(out@ =~= old(out)@ + b@.subrange(0, i as int));
    }
    assert(b@.subrange(0, b@.len() as int) =~= b@);
}

} // verus!
