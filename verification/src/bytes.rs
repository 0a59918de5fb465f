//! Little-endian field access and byte checksums over raw table memory.
use vstd::prelude::*;

verus! {

/// Little-endian 16-bit value stored at `off`.
pub open spec fn le16(s: Seq<u8>, off: int) -> int {
    s[off] + s[off + 1] * 256
}

/// Little-endian 32-bit value stored at `off`.
pub open spec fn le32(s: Seq<u8>, off: int) -> int {
    le16(s, off) + le16(s, off + 2) * 0x1_0000
}

/// Little-endian 64-bit value stored at `off`.
pub open spec fn le64(s: Seq<u8>, off: int) -> int {
    le32(s, off) + le32(s, off + 4) * 0x1_0000_0000
}

/// Sum of all bytes of `s`, as an unbounded integer.
pub open spec fn byte_sum(s: Seq<u8>) -> nat
    decreases s.len(),
{
    if s.len() == 0 {
        0
    } else {
        byte_sum(s.drop_last()) + s.last() as nat
    }
}

/// A table whose first `n` bytes add up to zero modulo 256 carries a valid checksum.
pub open spec fn checksum_valid(s: Seq<u8>, n: int) -> bool {
    byte_sum(s.take(n)) % 256 == 0
}

pub fn read_u8(b: &[u8], off: usize) -> (r: u8)
    requires
        off < b@.len(),
    ensures
        r == b@[off as int],
{
    b[off]
}

pub fn read_u16_le(b: &[u8], off: usize) -> (r: u16)
    requires
        off + 2 <= b@.len(),
    ensures
        r == le16(b@, off as int),
{
    (b[off] as u16) + (b[off + 1] as u16) * 256
}

pub fn read_u32_le(b: &[u8], off: usize) -> (r: u32)
    requires
        off + 4 <= b@.len(),
    ensures
        r == le32(b@, off as int),
{
    let _len = b.len();
    let lo = read_u16_le(b, off);
    let hi = read_u16_le(b, off + 2);
    (lo as u32) + (hi as u32) * 0x1_0000
}

pub fn read_u64_le(b: &[u8], off: usize) -> (r: u64)
    requires
        off + 8 <= b@.len(),
    ensures
        r == le64(b@, off as int),
{
    let _len = b.len();
    let lo = read_u32_le(b, off);
    let hi = read_u32_le(b, off + 4);
    (lo as u64) + (hi as u64) * 0x1_0000_0000
}

/// The low half of a little-endian 64-bit field is the 32-bit field at the same offset.
pub proof fn lemma_le64_low_half(s: Seq<u8>, off: int)
    requires
        0 <= off,
        off + 8 <= s.len(),
    ensures
        le64(s, off) % 0x1_0000_0000 == le32(s, off),
        0 <= le32(s, off) < 0x1_0000_0000,
{
    assert(0 <= le32(s, off) < 0x1_0000_0000);
    assert(0 <= le32(s, off + 4));
    vstd::arithmetic::div_mod::lemma_fundamental_div_mod_converse(
        le64(s, off),
        0x1_0000_0000,
        le32(s, off + 4),
        le32(s, off),
    );
}

/// Whether the first `n` bytes of `b` sum to zero modulo 256, the ACPI checksum rule.
pub fn checksum_ok(b: &[u8], n: usize) -> (r: bool)
    requires
        n <= b@.len(),
    ensures
        r == checksum_valid(b@, n as int),
{
    let mut acc: u8 = 0;
    let mut i: usize = 0;
    while i < n
        invariant
            i <= n <= b@.len(),
            acc as nat == byte_sum(b@.take(i as int)) % 256,
        decreases n - i,
    {
        assert(b@.take(i as int + 1).drop_last() =~= b@.take(i as int));
        acc = ((acc as u16 + b[i] as u16) % 256) as u8;
        i = i + 1;
    }
    acc == 0
}

/// Whether the first four bytes of `t` are `a b c d` (an ACPI table signature).
pub open spec fn sig4(t: Seq<u8>, a: u8, b: u8, c: u8, d: u8) -> bool {
    t.len() >= 4 && t[0] == a && t[1] == b && t[2] == c && t[3] == d
}

pub fn has_sig4(t: &[u8], a: u8, b: u8, c: u8, d: u8) -> (r: bool)
    ensures
        r == sig4(t@, a, b, c, d),
{
    t.len() >= 4 && t[0] == a && t[1] == b && t[2] == c && t[3] == d
}

/// Little-endian encoding of a 32-bit value.
pub open spec fn le_bytes32(x: u32) -> Seq<u8> {
    seq![(x % 256) as u8, ((x / 256) % 256) as u8, ((x / 0x1_0000) % 256) as u8, (x / 0x100_0000) as u8]
}

/// Little-endian encoding of a 64-bit value.
pub open spec fn le_bytes64(x: u64) -> Seq<u8> {
    le_bytes32((x % 0x1_0000_0000) as u32) + le_bytes32((x / 0x1_0000_0000) as u32)
}

pub fn push_u32_le(v: &mut Vec<u8>, x: u32)
    ensures
        final(v)@ == old(v)@ + le_bytes32(x),
{
    v.push((x % 256) as u8);
    v.push(((x / 256) % 256) as u8);
    v.push(((x / 0x1_0000) % 256) as u8);
    v.push((x / 0x100_0000) as u8);
    assert(v@ =~= old(v)@ + le_bytes32(x));
}

pub fn push_u64_le(v: &mut Vec<u8>, x: u64)
    ensures
        final(v)@ == old(v)@ + le_bytes64(x),
{
    push_u32_le(v, (x % 0x1_0000_0000) as u32);
    push_u32_le(v, (x / 0x1_0000_0000) as u32);
    assert(v@ =~= old(v)@ + le_bytes64(x));
}

/// Reading back an encoded 32-bit value gives the value.
pub proof fn lemma_le32_roundtrip(x: u32)
    ensures
        le32(le_bytes32(x), 0) == x,
{
    let b = le_bytes32(x);
    assert(b[0] + b[1] * 256 + b[2] * 0x1_0000 + b[3] * 0x100_0000 == x) by (nonlinear_arith)
        requires
            b[0] == x % 256,
            b[1] == (x / 256) % 256,
            b[2] == (x / 0x1_0000) % 256,
            b[3] == x / 0x100_0000,
            x < 0x1_0000_0000,
    {
        assert(x == (x / 256) * 256 + x % 256);
        assert(x / 256 == (x / 0x1_0000) * 256 + (x / 256) % 256);
        assert(x / 0x1_0000 == (x / 0x100_0000) * 256 + (x / 0x1_0000) % 256);
    }
}

} // verus!
