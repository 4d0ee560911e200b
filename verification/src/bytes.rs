//! Small byte-level helpers shared by the fixed-layout encodings.
use vstd::prelude::*;

verus! {

broadcast use vstd::array::group_array_axioms;

/// The little-endian `u16` encoded by the two bytes `lo`, `hi`.
pub open spec fn le_u16(lo: u8, hi: u8) -> u16 {
    (lo as int + 256 * (hi as int)) as u16
}

/// Decodes a little-endian `u16` (what `u16::from_le_bytes` computes).
pub fn u16_from_le(b: [u8; 2]) -> (r: u16)
    ensures
        r == le_u16(b@[0], b@[1]),
        r as int == b@[0] as int + 256 * (b@[1] as int),
{
    (b[0] as u16) + 256 * (b[1] as u16)
}

/// The two little-endian bytes of `v`.
pub open spec fn u16_le_bytes(v: u16) -> Seq<u8> {
    seq![(v % 256) as u8, (v / 256) as u8]
}

/// Encodes a `u16` little-endian (what `u16::to_le_bytes` computes).
pub fn u16_to_le(v: u16) -> (r: [u8; 2])
    ensures
        r@ == u16_le_bytes(v),
        le_u16(r@[0], r@[1]) == v,
{
    let r = [(v % 256) as u8, (v / 256) as u8];
    assert(r@ =~= u16_le_bytes(v));
    r
}

/// Copies `N` bytes of `data`, starting at `off`, into `dst`.
pub fn copy_into<const N: usize>(dst: &mut [u8; N], data: &[u8], off: usize)
    requires
        off + N <= data@.len(),
    ensures
        final(dst)@ == data@.subrange(off as int, off + N),
{
    let len = data.len();
    let mut i: usize = 0;
    while i < N
        invariant
            i <= N,
            len == data@.len(),
            off + N <= len,
            dst@.len() == N,
            forall|j: int| 0 <= j < i ==> dst@[j] == data@[off + j],
        decreases N - i,
    {
        dst[i] = data[off + i];
        i = i + 1;
    }
    assert(dst@ =~= data@.subrange(off as int, off + N));
}

/// Overwrites `dst` with `src` followed by zeros.
pub fn copy_padded<const N: usize>(dst: &mut [u8; N], src: &[u8])
    requires
        src@.len() <= N,
    ensures
        final(dst)@ == src@ + crate::address::zeros((N - src@.len()) as nat),
{
    let len = src.len();
    let mut i: usize = 0;
    while i < N
        invariant
            i <= N,
            len == src@.len(),
            len <= N,
            dst@.len() == N,
            forall|j: int| 0 <= j < i ==> dst@[j] == (if j < len { src@[j] } else { 0u8 }),
        decreases N - i,
    {
        if i < len {
            dst[i] = src[i];
        } else {
            dst[i] = 0;
        }
        i = i + 1;
    }
    assert(dst@ =~= src@ + crate::address::zeros((N - src@.len()) as nat));
}

/// Whether two byte strings are equal.
pub fn bytes_eq(a: &[u8], b: &[u8]) -> (r: bool)
    ensures
        r == (a@ == b@),
{
    if a.len() != b.len() {
        return false;
    }
    let len = a.len();
    let mut i: usize = 0;
    while i < len
        invariant
            i <= len,
            len == a@.len(),
            len == b@.len(),
            forall|j: int| 0 <= j < i ==> a@[j] == b@[j],
        decreases len - i,
    {
        if a[i] != b[i] {
            return false;
        }
        i = i + 1;
    }
    assert(a@ =~= b@);
    true
}

/// Whether every byte is zero.
pub fn all_zero(a: &[u8]) -> (r: bool)
    ensures
        r == (a@ == crate::address::zeros(a@.len())),
{
    let len = a.len();
    let mut i: usize = 0;
    while i < len
        invariant
            i <= len,
            len == a@.len(),
            forall|j: int| 0 <= j < i ==> a@[j] == 0u8,
        decreases len - i,
    {
        if a[i] != 0 {
            assert(a@[i as int] != crate::address::zeros(a@.len())[i as int]);
            return false;
        }
        i = i + 1;
    }
    assert(a@ =~= crate::address::zeros(a@.len()));
    true
}

} // verus!
