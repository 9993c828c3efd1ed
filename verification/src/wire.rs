//! Fixed-width integer encodings used by the wire formats and guest structures.
use vstd::prelude::*;

verus! {

/// The four bytes of `v`, least significant first.
pub open spec fn le32(v: u32) -> Seq<u8> {
    seq![(v & 0xff) as u8, ((v >> 8) & 0xff) as u8, ((v >> 16) & 0xff) as u8, ((v >> 24) & 0xff) as u8]
}

/// The four bytes of `v`, most significant first.
pub open spec fn be32(v: u32) -> Seq<u8> {
    seq![((v >> 24) & 0xff) as u8, ((v >> 16) & 0xff) as u8, ((v >> 8) & 0xff) as u8, (v & 0xff) as u8]
}

/// The two bytes of `v`, least significant first.
pub open spec fn le16(v: u16) -> Seq<u8> {
    seq![(v & 0xff) as u8, ((v >> 8) & 0xff) as u8]
}

/// The eight bytes of `v`, least significant first.
pub open spec fn le64(v: u64) -> Seq<u8> {
    seq![
        (v & 0xff) as u8,
        ((v >> 8) & 0xff) as u8,
        ((v >> 16) & 0xff) as u8,
        ((v >> 24) & 0xff) as u8,
        ((v >> 32) & 0xff) as u8,
        ((v >> 40) & 0xff) as u8,
        ((v >> 48) & 0xff) as u8,
        ((v >> 56) & 0xff) as u8,
    ]
}

/// The `u32` whose little-endian bytes are `b0..b3`.
pub open spec fn u32_le(b0: u8, b1: u8, b2: u8, b3: u8) -> u32 {
    (b0 as u32) | ((b1 as u32) << 8u32) | ((b2 as u32) << 16u32) | ((b3 as u32) << 24u32)
}

/// The `u32` read little-endian from `s` at `at`.
pub open spec fn read_le32(s: Seq<u8>, at: int) -> u32 {
    u32_le(s[at], s[at + 1], s[at + 2], s[at + 3])
}

/// The `u32` read big-endian from `s` at `at`.
pub open spec fn read_be32(s: Seq<u8>, at: int) -> u32 {
    u32_le(s[at + 3], s[at + 2], s[at + 1], s[at])
}

/// The `u16` read little-endian from `s` at `at`.
pub open spec fn read_le16(s: Seq<u8>, at: int) -> u16 {
    ((s[at] as u16) | ((s[at + 1] as u16) << 8u16)) as u16
}

/// The `u64` read little-endian from `s` at `at`.
pub open spec fn read_le64(s: Seq<u8>, at: int) -> u64 {
    (read_le32(s, at) as u64) | ((read_le32(s, at + 4) as u64) << 32u64)
}

/// Reading back the little-endian bytes of a 16-bit value gives the value.
pub proof fn lemma_le16_roundtrip(v: u16)
    ensures
        read_le16(le16(v), 0) == v,
{
    let b0 = (v & 0xff) as u8;
    let b1 = ((v >> 8) & 0xff) as u8;
    assert(((b0 as u16) | ((b1 as u16) << 8u16)) as u16 == v) by (bit_vector)
        requires
            b0 == (v & 0xff) as u8,
            b1 == ((v >> 8) & 0xff) as u8,
    ;
}

/// Reading back the little-endian bytes of a 64-bit value gives the value.
pub proof fn lemma_le64_roundtrip(v: u64)
    ensures
        read_le64(le64(v), 0) == v,
{
    let s = le64(v);
    let lo = u32_le(s[0], s[1], s[2], s[3]);
    let hi = u32_le(s[4], s[5], s[6], s[7]);
    assert(lo == (v & 0xffff_ffff) as u32) by (bit_vector)
        requires
            lo == ((v & 0xff) as u8 as u32) | ((((v >> 8) & 0xff) as u8 as u32) << 8u32) | ((((v >> 16)
                & 0xff) as u8 as u32) << 16u32) | ((((v >> 24) & 0xff) as u8 as u32) << 24u32),
    ;
    assert(hi == (v >> 32) as u32) by (bit_vector)
        requires
            hi == (((v >> 32) & 0xff) as u8 as u32) | ((((v >> 40) & 0xff) as u8 as u32) << 8u32) | ((((v
                >> 48) & 0xff) as u8 as u32) << 16u32) | ((((v >> 56) & 0xff) as u8 as u32) << 24u32),
    ;
    assert(((lo as u64) | ((hi as u64) << 32u64)) == v) by (bit_vector)
        requires
            lo == (v & 0xffff_ffff) as u32,
            hi == (v >> 32) as u32,
    ;
}

/// Reading back the little-endian (or big-endian) bytes of a 32-bit value
/// gives the value.
pub proof fn lemma_le32_roundtrip(v: u32)
    ensures
        read_le32(le32(v), 0) == v,
        read_be32(be32(v), 0) == v,
{
    let b0 = (v & 0xff) as u8;
    let b1 = ((v >> 8) & 0xff) as u8;
    let b2 = ((v >> 16) & 0xff) as u8;
    let b3 = ((v >> 24) & 0xff) as u8;
    assert(u32_le(b0, b1, b2, b3) == v) by (bit_vector)
        requires
            b0 == (v & 0xff) as u8,
            b1 == ((v >> 8) & 0xff) as u8,
            b2 == ((v >> 16) & 0xff) as u8,
            b3 == ((v >> 24) & 0xff) as u8,
    ;
}

/// Encoding the value read from four bytes gives back those bytes.
pub proof fn lemma_le32_bytes(b0: u8, b1: u8, b2: u8, b3: u8)
    ensures
        le32(u32_le(b0, b1, b2, b3)) == seq![b0, b1, b2, b3],
        be32(u32_le(b3, b2, b1, b0)) == seq![b0, b1, b2, b3],
{
    let v = u32_le(b0, b1, b2, b3);
    assert((v & 0xff) as u8 == b0 && ((v >> 8) & 0xff) as u8 == b1 && ((v >> 16) & 0xff) as u8
        == b2 && ((v >> 24) & 0xff) as u8 == b3) by (bit_vector)
        requires
            v == (b0 as u32) | ((b1 as u32) << 8u32) | ((b2 as u32) << 16u32) | ((b3 as u32)
                << 24u32),
    ;
    let w = u32_le(b3, b2, b1, b0);
    assert((w & 0xff) as u8 == b3 && ((w >> 8) & 0xff) as u8 == b2 && ((w >> 16) & 0xff) as u8
        == b1 && ((w >> 24) & 0xff) as u8 == b0) by (bit_vector)
        requires
            w == (b3 as u32) | ((b2 as u32) << 8u32) | ((b1 as u32) << 16u32) | ((b0 as u32)
                << 24u32),
    ;
    assert(le32(v) =~= seq![b0, b1, b2, b3]);
    assert(be32(w) =~= seq![b0, b1, b2, b3]);
}

/// The little-endian bytes of `v`.
pub fn u32_to_le(v: u32) -> (b: [u8; 4])
    ensures
        b@ == le32(v),
{
    let b = [(v & 0xff) as u8, ((v >> 8) & 0xff) as u8, ((v >> 16) & 0xff) as u8, ((v >> 24) & 0xff) as u8];
    assert(b@ =~= le32(v));
    b
}

/// The big-endian bytes of `v`.
pub fn u32_to_be(v: u32) -> (b: [u8; 4])
    ensures
        b@ == be32(v),
{
    let b = [((v >> 24) & 0xff) as u8, ((v >> 16) & 0xff) as u8, ((v >> 8) & 0xff) as u8, (v & 0xff) as u8];
    assert(b@ =~= be32(v));
    b
}

/// The little-endian bytes of `v`.
pub fn u16_to_le(v: u16) -> (b: [u8; 2])
    ensures
        b@ == le16(v),
{
    let b = [(v & 0xff) as u8, ((v >> 8) & 0xff) as u8];
    assert(b@ =~= le16(v));
    b
}

/// The little-endian bytes of `v`.
pub fn u64_to_le(v: u64) -> (b: [u8; 8])
    ensures
        b@ == le64(v),
{
    let b = [
        (v & 0xff) as u8,
        ((v >> 8) & 0xff) as u8,
        ((v >> 16) & 0xff) as u8,
        ((v >> 24) & 0xff) as u8,
        ((v >> 32) & 0xff) as u8,
        ((v >> 40) & 0xff) as u8,
        ((v >> 48) & 0xff) as u8,
        ((v >> 56) & 0xff) as u8,
    ];
    assert(b@ =~= le64(v));
    b
}

/// The `u32` stored little-endian in `s` at `at`.
pub fn get_le32(s: &[u8], at: usize) -> (v: u32)
    requires
        at + 4 <= s@.len(),
    ensures
        v == read_le32(s@, at as int),
{
    let _n = s.len();
    (s[at] as u32) | ((s[at + 1] as u32) << 8u32) | ((s[at + 2] as u32) << 16u32) | ((s[at + 3] as u32) << 24u32)
}

/// The `u32` stored big-endian in `s` at `at`.
pub fn get_be32(s: &[u8], at: usize) -> (v: u32)
    requires
        at + 4 <= s@.len(),
    ensures
        v == read_be32(s@, at as int),
{
    let _n = s.len();
    (s[at + 3] as u32) | ((s[at + 2] as u32) << 8u32) | ((s[at + 1] as u32) << 16u32) | ((s[at] as u32) << 24u32)
}

/// The `u16` stored little-endian in `s` at `at`.
pub fn get_le16(s: &[u8], at: usize) -> (v: u16)
    requires
        at + 2 <= s@.len(),
    ensures
        v == read_le16(s@, at as int),
{
    let _n = s.len();
    ((s[at] as u16) | ((s[at + 1] as u16) << 8u16)) as u16
}

/// The `u64` stored little-endian in `s` at `at`.
pub fn get_le64(s: &[u8], at: usize) -> (v: u64)
    requires
        at + 8 <= s@.len(),
    ensures
        v == read_le64(s@, at as int),
{
    let _n = s.len();
    (get_le32(s, at) as u64) | ((get_le32(s, at + 4) as u64) << 32u64)
}

} // verus!
