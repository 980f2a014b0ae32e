//! Byte-string helpers: path normalization, equality, and the clamped
//! range extraction that `read` serves slices with.

use vstd::prelude::*;

verus! {

use vstd::slice::slice_subrange;

/// A path with at most one leading slash removed. The protocol hands the
/// engine absolute paths; the root directory normalizes to the empty string.
pub open spec fn spec_norm(p: Seq<u8>) -> Seq<u8> {
    if p.len() > 0 && p[0] == 47u8 {
        p.skip(1)
    } else {
        p
    }
}

/// A path that names the root directory: empty once normalized.
pub open spec fn is_root(p: Seq<u8>) -> bool {
    spec_norm(p).len() == 0
}

/// The `[offset, offset + size)` window of `data`, clamped to its bounds:
/// a window past end-of-file is shorter, possibly empty, never an error.
pub open spec fn spec_clamp(data: Seq<u8>, offset: u64, size: u32) -> Seq<u8> {
    if offset as int >= data.len() {
        Seq::empty()
    } else if offset as int + size as int <= data.len() {
        data.subrange(offset as int, offset as int + size as int)
    } else {
        data.subrange(offset as int, data.len() as int)
    }
}

/// Strips at most one leading slash from `p`.
pub fn norm(p: &[u8]) -> (r: &[u8])
    ensures
        r@ == spec_norm(p@),
{
    if p.len() > 0 && p[0] == 47u8 {
        let r = slice_subrange(p, 1, p.len());
        assert(r@ =~= spec_norm(p@));
        r
    } else {
        p
    }
}

/// Byte-string equality.
pub fn bytes_eq(a: &[u8], b: &[u8]) -> (r: bool)
    ensures
        r == (a@ == b@),
{
    if a.len() != b.len() {
        assert(a@ != b@) by {
            assert(a@.len() != b@.len());
        }
        return false;
    }
    let n = a.len();
    let mut i: usize = 0;
    while i < n
        invariant
            n == a@.len() == b@.len(),
            i <= n,
            forall|k: int| 0 <= k < i ==> a@[k] == b@[k],
        decreases n - i,
    {
        if a[i] != b[i] {
            return false;
        }
        i += 1;
    }
    assert(a@ =~= b@);
    true
}

/// Copies a byte string.
pub fn copy_bytes(src: &[u8]) -> (r: Vec<u8>)
    ensures
        r@ == src@,
{
    let n = src.len();
    let mut r: Vec<u8> = Vec::new();
    let mut i: usize = 0;
    while i < n
        invariant
            n == src@.len(),
            i <= n,
            r@ =~= src@.subrange(0, i as int),
        decreases n - i,
    {
        r.push(src[i]);
        assert(r@ =~= src@.subrange(0, i as int + 1));
        i += 1;
    }
    assert(r@ =~= src@);
    r
}

/// Copies the clamped `[offset, offset + size)` window out of `data`.
pub fn clamped_slice(data: &Vec<u8>, offset: u64, size: u32) -> (r: Vec<u8>)
    ensures
        r@ == spec_clamp(data@, offset, size),
{
    let len = data.len();
    if offset >= len as u64 {
        let r: Vec<u8> = Vec::new();
        assert(r@ =~= spec_clamp(data@, offset, size));
        return r;
    }
    let lo = offset as usize;
    let avail = len - lo;
    let take: usize = if (size as u64) <= avail as u64 {
        size as usize
    } else {
        avail
    };
    let end = lo + take;
    let mut r: Vec<u8> = Vec::new();
    let mut j: usize = lo;
    while j < end
        invariant
            lo <= j <= end,
            end <= data@.len(),
            r@ =~= data@.subrange(lo as int, j as int),
        decreases end - j,
    {
        r.push(data[j]);
        assert(r@ =~= data@.subrange(lo as int, j as int + 1));
        j += 1;
    }
    assert(r@ =~= spec_clamp(data@, offset, size));
    r
}

} // verus!
