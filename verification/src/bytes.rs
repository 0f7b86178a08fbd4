//! Little-endian integers in byte sequences.
use vstd::prelude::*;

verus! {

/// The little-endian 16-bit integer that starts at index `at`.
pub open spec fn le_u16(b: Seq<u8>, at: int) -> u16 {
    (b[at] + 0x100 * b[at + 1]) as u16
}

/// The little-endian 32-bit integer that starts at index `at`.
pub open spec fn le_u32(b: Seq<u8>, at: int) -> u32 {
    (b[at] + 0x100 * b[at + 1] + 0x1_0000 * b[at + 2] + 0x100_0000 * b[at + 3]) as u32
}

/// The little-endian 64-bit integer that starts at index `at`.
pub open spec fn le_u64(b: Seq<u8>, at: int) -> u64 {
    (le_u32(b, at) + 0x1_0000_0000 * le_u32(b, at + 4)) as u64
}

/// The two little-endian bytes of `x`.
pub open spec fn u16_le(x: u16) -> Seq<u8> {
    seq![(x % 0x100) as u8, (x / 0x100) as u8]
}

/// The four little-endian bytes of `x`.
pub open spec fn u32_le(x: u32) -> Seq<u8> {
    seq![
        (x % 0x100) as u8,
        (x / 0x100 % 0x100) as u8,
        (x / 0x1_0000 % 0x100) as u8,
        (x / 0x100_0000) as u8,
    ]
}

/// The eight little-endian bytes of `x`.
pub open spec fn u64_le(x: u64) -> Seq<u8> {
    u32_le((x % 0x1_0000_0000) as u32) + u32_le((x / 0x1_0000_0000) as u32)
}

/// Reading a 16-bit integer anywhere in a sequence gives back the integer written there.
pub proof fn u16_round_trip(b: Seq<u8>, at: int, x: u16)
    requires
        0 <= at,
        at + 2 <= b.len(),
        b.subrange(at, at + 2) == u16_le(x),
    ensures
        le_u16(b, at) == x,
{
    let s = b.subrange(at, at + 2);
    assert(s[0] == b[at] && s[1] == b[at + 1]);
}

/// Reading a 32-bit integer anywhere in a sequence gives back the integer written there.
pub proof fn u32_round_trip(b: Seq<u8>, at: int, x: u32)
    requires
        0 <= at,
        at + 4 <= b.len(),
        b.subrange(at, at + 4) == u32_le(x),
    ensures
        le_u32(b, at) == x,
{
    let s = b.subrange(at, at + 4);
    assert(s[0] == b[at] && s[1] == b[at + 1] && s[2] == b[at + 2] && s[3] == b[at + 3]);
}

/// Reading a 64-bit integer anywhere in a sequence gives back the integer written there.
pub proof fn u64_round_trip(b: Seq<u8>, at: int, x: u64)
    requires
        0 <= at,
        at + 8 <= b.len(),
        b.subrange(at, at + 8) == u64_le(x),
    ensures
        le_u64(b, at) == x,
{
    let low = (x % 0x1_0000_0000) as u32;
    let high = (x / 0x1_0000_0000) as u32;
    assert(b.subrange(at, at + 4) =~= u64_le(x).subrange(0, 4));
    assert(u64_le(x).subrange(0, 4) =~= u32_le(low));
    assert(b.subrange(at + 4, at + 8) =~= u64_le(x).subrange(4, 8));
    assert(u64_le(x).subrange(4, 8) =~= u32_le(high));
    u32_round_trip(b, at, low);
    u32_round_trip(b, at + 4, high);
}

/// The four bytes of a 32-bit integer hold that integer.
pub proof fn u32_read_back(x: u32)
    ensures
        u32_le(x).len() == 4,
        le_u32(u32_le(x), 0) == x,
{
    assert(u32_le(x).subrange(0, 4) =~= u32_le(x));
    u32_round_trip(u32_le(x), 0, x);
}

/// The eight bytes of a 64-bit integer hold that integer.
pub proof fn u64_read_back(x: u64)
    ensures
        u64_le(x).len() == 8,
        le_u64(u64_le(x), 0) == x,
{
    assert(u64_le(x).subrange(0, 8) =~= u64_le(x));
    u64_round_trip(u64_le(x), 0, x);
}

/// Writing the 16-bit integer read at an index gives back the two bytes found there.
pub proof fn u16_written_back(b: Seq<u8>, at: int)
    requires
        0 <= at,
        at + 2 <= b.len(),
    ensures
        u16_le(le_u16(b, at)) == b.subrange(at, at + 2),
{
    assert(u16_le(le_u16(b, at)) =~= b.subrange(at, at + 2));
}

/// Writing the 32-bit integer read at an index gives back the four bytes found there.
pub proof fn u32_written_back(b: Seq<u8>, at: int)
    requires
        0 <= at,
        at + 4 <= b.len(),
    ensures
        u32_le(le_u32(b, at)) == b.subrange(at, at + 4),
{
    let x = le_u32(b, at);
    let upper = b[at + 2] + 0x100 * b[at + 3];
    assert(x == b[at] + 0x100 * (b[at + 1] + 0x100 * upper));
    assert(x / 0x100 == b[at + 1] + 0x100 * upper);
    assert(x / 0x1_0000 == upper);
    assert(x / 0x100_0000 == b[at + 3]);
    let w = u32_le(x);
    let s = b.subrange(at, at + 4);
    assert(w[0] == s[0]);
    assert(w[1] == s[1]);
    assert(w[2] == s[2]);
    assert(w[3] == s[3]);
    assert(w =~= s);
}

/// Reads the little-endian 16-bit integer at index `at`.
pub fn read_u16(b: &[u8], at: usize) -> (x: u16)
    requires
        at + 2 <= b@.len(),
    ensures
        x == le_u16(b@, at as int),
{
    b[at] as u16 + 0x100 * (b[at + 1] as u16)
}

/// Reads the little-endian 32-bit integer at index `at`.
pub fn read_u32(b: &[u8], at: usize) -> (x: u32)
    requires
        at + 4 <= b@.len(),
    ensures
        x == le_u32(b@, at as int),
{
    b[at] as u32 + 0x100 * (b[at + 1] as u32) + 0x1_0000 * (b[at + 2] as u32) + 0x100_0000 * (b[at
        + 3] as u32)
}

/// Reads the little-endian 64-bit integer at index `at`.
pub fn read_u64(b: &[u8], at: usize) -> (x: u64)
    requires
        at + 8 <= b@.len(),
    ensures
        x == le_u64(b@, at as int),
{
    assert(b@.len() == b.len());
    read_u32(b, at) as u64 + 0x1_0000_0000 * (read_u32(b, at + 4) as u64)
}

/// Appends the bytes of `tail` to `out`.
pub fn push_all(out: &mut Vec<u8>, tail: &[u8])
    ensures
        final(out)@ == old(out)@ + tail@,
{
    out.extend_from_slice(tail);
    assert(out@ =~= old(out)@ + tail@);
}

/// Appends the two little-endian bytes of `x` to `out`.
pub fn push_u16(out: &mut Vec<u8>, x: u16)
    ensures
        final(out)@ == old(out)@ + u16_le(x),
{
    out.push((x % 0x100) as u8);
    out.push((x / 0x100) as u8);
    assert(out@ =~= old(out)@ + u16_le(x));
}

/// Appends the four little-endian bytes of `x` to `out`.
pub fn push_u32(out: &mut Vec<u8>, x: u32)
    ensures
        final(out)@ == old(out)@ + u32_le(x),
{
    out.push((x % 0x100) as u8);
    out.push((x / 0x100 % 0x100) as u8);
    out.push((x / 0x1_0000 % 0x100) as u8);
    out.push((x / 0x100_0000) as u8);
    assert(out@ =~= old(out)@ + u32_le(x));
}

/// Copies `b` into a vector of its own.
pub fn copied(b: &[u8]) -> (v: Vec<u8>)
    ensures
        v@ == b@,
{
    let mut v: Vec<u8> = Vec::new();
    push_all(&mut v, b);
    assert(v@ =~= b@);
    v
}

/// The two bytes of a 16-bit integer are its digits to the base 256, the lowest first.
pub proof fn u16_digits(x: u16)
    ensures
        u16_le(x).len() == 2,
        u16_le(x)[0] + 0x100 * u16_le(x)[1] == x,
{
}

/// The four bytes of a 32-bit integer are its digits to the base 256, the lowest first.
pub proof fn u32_digits(x: u32)
    ensures
        u32_le(x).len() == 4,
        u32_le(x)[0] + 0x100 * u32_le(x)[1] + 0x1_0000 * u32_le(x)[2] + 0x100_0000 * u32_le(x)[3]
            == x,
{
}

/// The eight bytes of a 64-bit integer are its digits to the base 256, the lowest first.
pub proof fn u64_digits(x: u64)
    ensures
        u64_le(x).len() == 8,
        u64_le(x)[0] + 0x100 * u64_le(x)[1] + 0x1_0000 * u64_le(x)[2] + 0x100_0000 * u64_le(x)[3]
            + 0x1_0000_0000 * u64_le(x)[4] + 0x100_0000_0000 * u64_le(x)[5] + 0x1_0000_0000_0000
            * u64_le(x)[6] + 0x100_0000_0000_0000 * u64_le(x)[7] == x,
{
    u32_digits((x % 0x1_0000_0000) as u32);
    u32_digits((x / 0x1_0000_0000) as u32);
}

/// The integers read at an index have the bytes found there as their digits to the base 256, the
/// lowest first.
pub proof fn read_digits(b: Seq<u8>, at: int)
    ensures
        le_u16(b, at) == b[at] + 0x100 * b[at + 1],
        le_u32(b, at) == b[at] + 0x100 * b[at + 1] + 0x1_0000 * b[at + 2] + 0x100_0000 * b[at + 3],
        le_u64(b, at) == b[at] + 0x100 * b[at + 1] + 0x1_0000 * b[at + 2] + 0x100_0000 * b[at + 3]
            + 0x1_0000_0000 * b[at + 4] + 0x100_0000_0000 * b[at + 5] + 0x1_0000_0000_0000 * b[at
            + 6] + 0x100_0000_0000_0000 * b[at + 7],
{
    assert(le_u32(b, at + 4) == b[at + 4] + 0x100 * b[at + 5] + 0x1_0000 * b[at + 6] + 0x100_0000
        * b[at + 7]);
}

} // verus!
