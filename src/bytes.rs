use vstd::prelude::*;

verus! {

/// The big-endian 16-bit integer at `b[i..i + 2]`.
pub open spec fn be16(b: Seq<u8>, i: int) -> int {
    b[i] as int * 256 + b[i + 1] as int
}

/// The big-endian 32-bit integer at `b[i..i + 4]`.
pub open spec fn be32(b: Seq<u8>, i: int) -> int {
    be16(b, i) * 0x1_0000 + be16(b, i + 2)
}

/// The big-endian 128-bit integer at `b[i..i + 16]`.
pub open spec fn be128(b: Seq<u8>, i: int) -> int {
    be32(b, i) * 0x1_0000_0000_0000_0000_0000_0000 + be32(b, i + 4) * 0x1_0000_0000_0000_0000
        + be32(b, i + 8) * 0x1_0000_0000 + be32(b, i + 12)
}

/// The two big-endian bytes of `v`.
pub open spec fn be16_bytes(v: u16) -> Seq<u8> {
    seq![(v / 256) as u8, (v % 256) as u8]
}

pub proof fn lemma_be16_round_trip(v: u16, s: Seq<u8>, i: int)
    requires
        0 <= i,
        i + 2 <= s.len(),
        s.subrange(i, i + 2) == be16_bytes(v),
    ensures
        be16(s, i) == v,
{
    assert(s[i] == s.subrange(i, i + 2)[0]);
    assert(s[i + 1] == s.subrange(i, i + 2)[1]);
}

pub fn read_be16(b: &[u8], i: usize) -> (r: u16)
    requires
        i + 1 < b@.len(),
    ensures
        r == be16(b@, i as int),
{
    (b[i] as u16) * 256 + (b[i + 1] as u16)
}

pub fn read_be32(b: &[u8], i: usize) -> (r: u32)
    requires
        i + 3 < b@.len(),
    ensures
        r == be32(b@, i as int),
{
    let _n = b.len();
    (read_be16(b, i) as u32) * 0x1_0000 + (read_be16(b, i + 2) as u32)
}

pub fn read_be128(b: &[u8], i: usize) -> (r: u128)
    requires
        i + 15 < b@.len(),
    ensures
        r == be128(b@, i as int),
{
    let _n = b.len();
    let a = read_be32(b, i) as u128;
    let c = read_be32(b, i + 4) as u128;
    let d = read_be32(b, i + 8) as u128;
    let e = read_be32(b, i + 12) as u128;
    a * 0x1_0000_0000_0000_0000_0000_0000 + c * 0x1_0000_0000_0000_0000 + d * 0x1_0000_0000 + e
}

pub fn push_be16(v: &mut Vec<u8>, x: u16)
    ensures
        final(v)@ == old(v)@ + be16_bytes(x),
{
    v.push((x / 256) as u8);
    v.push((x % 256) as u8);
    assert(final(v)@ =~= old(v)@ + be16_bytes(x));
}

/// The four big-endian bytes of `v`.
pub open spec fn be32_bytes(v: u32) -> Seq<u8> {
    be16_bytes((v / 0x1_0000) as u16) + be16_bytes((v % 0x1_0000) as u16)
}

pub proof fn lemma_be32_round_trip(v: u32, s: Seq<u8>, i: int)
    requires
        0 <= i,
        i + 4 <= s.len(),
        s.subrange(i, i + 4) == be32_bytes(v),
    ensures
        be32(s, i) == v,
{
    assert(s.subrange(i, i + 2) =~= be16_bytes((v / 0x1_0000) as u16)) by {
        assert(s.subrange(i, i + 2) =~= s.subrange(i, i + 4).subrange(0, 2));
    }
    assert(s.subrange(i + 2, i + 4) =~= be16_bytes((v % 0x1_0000) as u16)) by {
        assert(s.subrange(i + 2, i + 4) =~= s.subrange(i, i + 4).subrange(2, 4));
    }
    lemma_be16_round_trip((v / 0x1_0000) as u16, s, i);
    lemma_be16_round_trip((v % 0x1_0000) as u16, s, i + 2);
}

pub fn push_be32(v: &mut Vec<u8>, x: u32)
    ensures
        final(v)@ == old(v)@ + be32_bytes(x),
{
    push_be16(v, (x / 0x1_0000) as u16);
    push_be16(v, (x % 0x1_0000) as u16);
    assert(final(v)@ =~= old(v)@ + be32_bytes(x));
}

} // verus!
