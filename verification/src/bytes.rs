//! Fixed-width integers in byte strings: how they are read from a position
//! and how they are written, in little-endian order unless a name says
//! otherwise.

use vstd::prelude::*;

verus! {

/// The order in which the bytes of a multi-byte number are stored.
#[derive(Clone, Copy, Debug, PartialEq, Eq, Structural)]
pub enum Endianness {
    BigEndian,
    LittleEndian,
}

/// The unsigned 16-bit number stored at `at`, low byte first.
pub open spec fn u16_at(b: Seq<u8>, at: int) -> u16 {
    (b[at] + 0x100 * b[at + 1]) as u16
}

/// The unsigned 32-bit number stored at `at`, low byte first.
pub open spec fn u32_at(b: Seq<u8>, at: int) -> u32 {
    (b[at] + 0x100 * b[at + 1] + 0x1_0000 * b[at + 2] + 0x100_0000 * b[at + 3]) as u32
}

/// The unsigned 64-bit number stored at `at`, low byte first.
pub open spec fn u64_at(b: Seq<u8>, at: int) -> u64 {
    (u32_at(b, at) + 0x1_0000_0000 * u32_at(b, at + 4)) as u64
}

/// The signed number that the 8 bits of `v` stand for in two's complement.
pub open spec fn i8_of(v: u8) -> i8 {
    if v < 0x80 {
        v as i8
    } else {
        (v - 0x100) as i8
    }
}

/// The signed number that the 16 bits of `v` stand for in two's complement.
pub open spec fn i16_of(v: u16) -> i16 {
    if v < 0x8000 {
        v as i16
    } else {
        (v - 0x1_0000) as i16
    }
}

/// The signed number that the 32 bits of `v` stand for in two's complement.
pub open spec fn i32_of(v: u32) -> i32 {
    if v < 0x8000_0000 {
        v as i32
    } else {
        (v - 0x1_0000_0000) as i32
    }
}

/// The 8 bits that stand for `v` in two's complement.
pub open spec fn u8_of(v: i8) -> u8 {
    if v >= 0 {
        v as u8
    } else {
        (v + 0x100) as u8
    }
}

/// The 16 bits that stand for `v` in two's complement.
pub open spec fn u16_of(v: i16) -> u16 {
    if v >= 0 {
        v as u16
    } else {
        (v + 0x1_0000) as u16
    }
}

/// The 32 bits that stand for `v` in two's complement.
pub open spec fn u32_of(v: i32) -> u32 {
    if v >= 0 {
        v as u32
    } else {
        (v + 0x1_0000_0000) as u32
    }
}

/// The two bytes of `v`, low byte first.
pub open spec fn u16_bytes(v: u16) -> Seq<u8> {
    seq![(v % 0x100) as u8, (v / 0x100) as u8]
}

/// The four bytes of `v`, low byte first.
pub open spec fn u32_bytes(v: u32) -> Seq<u8> {
    seq![
        (v % 0x100) as u8,
        (v / 0x100 % 0x100) as u8,
        (v / 0x1_0000 % 0x100) as u8,
        (v / 0x100_0000) as u8,
    ]
}

/// The eight bytes of `v`, low byte first.
pub open spec fn u64_bytes(v: u64) -> Seq<u8> {
    u32_bytes((v % 0x1_0000_0000) as u32) + u32_bytes((v / 0x1_0000_0000) as u32)
}

/// The unsigned 16-bit number stored at `at`, high byte first.
pub open spec fn u16_be_at(b: Seq<u8>, at: int) -> u16 {
    (0x100 * b[at] + b[at + 1]) as u16
}

/// The unsigned 64-bit number stored at `at`, high byte first.
pub open spec fn u64_be_at(b: Seq<u8>, at: int) -> u64 {
    (0x1_0000_0000 * u32_be_at(b, at) + u32_be_at(b, at + 4)) as u64
}

/// The unsigned 32-bit number stored at `at`, high byte first.
pub open spec fn u32_be_at(b: Seq<u8>, at: int) -> u32 {
    (0x100_0000 * b[at] + 0x1_0000 * b[at + 1] + 0x100 * b[at + 2] + b[at + 3]) as u32
}

/// Writing a number and reading it back gives the number.
pub proof fn lemma_u16_round_trip(v: u16)
    ensures
        u16_bytes(v).len() == 2,
        u16_at(u16_bytes(v), 0) == v,
{
}

/// Writing a number and reading it back gives the number.
pub proof fn lemma_u32_round_trip(v: u32)
    ensures
        u32_bytes(v).len() == 4,
        u32_at(u32_bytes(v), 0) == v,
{
}

/// Writing a number and reading it back gives the number.
pub proof fn lemma_u64_round_trip(v: u64)
    ensures
        u64_bytes(v).len() == 8,
        u64_at(u64_bytes(v), 0) == v,
{
    let lo = (v % 0x1_0000_0000) as u32;
    let hi = (v / 0x1_0000_0000) as u32;
    lemma_u32_round_trip(lo);
    lemma_u32_round_trip(hi);
    let b = u64_bytes(v);
    assert(u32_at(b, 0) == u32_at(u32_bytes(lo), 0));
    assert(u32_at(b, 4) == u32_at(u32_bytes(hi), 0));
}

/// Reading a number and writing it again gives the bytes that were read.
pub proof fn lemma_u16_bytes_of_read(b: Seq<u8>, at: int)
    requires
        0 <= at,
        at + 2 <= b.len(),
    ensures
        u16_bytes(u16_at(b, at)) == b.subrange(at, at + 2),
{
    assert(u16_bytes(u16_at(b, at)) =~= b.subrange(at, at + 2));
}

/// The base-256 digits of a number made of four digits are those digits.
proof fn lemma_four_digits(b0: u8, b1: u8, b2: u8, b3: u8)
    ensures
        ({
            let v = b0 + 0x100 * b1 + 0x1_0000 * b2 + 0x100_0000 * b3;
            &&& 0 <= v < 0x1_0000_0000
            &&& v % 0x100 == b0
            &&& v / 0x100 % 0x100 == b1
            &&& v / 0x1_0000 % 0x100 == b2
            &&& v / 0x100_0000 == b3
        }),
{
    let v = b0 + 0x100 * b1 + 0x1_0000 * b2 + 0x100_0000 * b3;
    let r1 = b1 + 0x100 * b2 + 0x1_0000 * b3;
    let r2 = b2 + 0x100 * b3;
    assert(v == b0 + 0x100 * r1);
    assert(v / 0x100 == r1);
    assert(r1 == b1 + 0x100 * r2);
    assert(v / 0x1_0000 == r2);
    assert(v / 0x100_0000 == b3);
}

/// Reading a number and writing it again gives the bytes that were read.
pub proof fn lemma_u32_bytes_of_read(b: Seq<u8>, at: int)
    requires
        0 <= at,
        at + 4 <= b.len(),
    ensures
        u32_bytes(u32_at(b, at)) == b.subrange(at, at + 4),
{
    lemma_four_digits(b[at], b[at + 1], b[at + 2], b[at + 3]);
    assert(u32_bytes(u32_at(b, at)) =~= b.subrange(at, at + 4));
}

/// Reading a number and writing it again gives the bytes that were read.
pub proof fn lemma_u64_bytes_of_read(b: Seq<u8>, at: int)
    requires
        0 <= at,
        at + 8 <= b.len(),
    ensures
        u64_bytes(u64_at(b, at)) == b.subrange(at, at + 8),
{
    lemma_u32_bytes_of_read(b, at);
    lemma_u32_bytes_of_read(b, at + 4);
    let lo = u32_at(b, at);
    let hi = u32_at(b, at + 4);
    let v = u64_at(b, at);
    assert(v == lo + 0x1_0000_0000 * hi);
    assert((v % 0x1_0000_0000) as u32 == lo);
    assert((v / 0x1_0000_0000) as u32 == hi);
    assert(u64_bytes(v) =~= b.subrange(at, at + 4) + b.subrange(at + 4, at + 8));
    assert(b.subrange(at, at + 4) + b.subrange(at + 4, at + 8) =~= b.subrange(at, at + 8));
}

/// Pieces of a byte string that follow one another make up the piece from
/// the start of the first to the end of the last.
pub proof fn lemma_join(b: Seq<u8>, from: int, mid: int, to: int)
    requires
        0 <= from <= mid <= to <= b.len(),
    ensures
        b.subrange(from, mid) + b.subrange(mid, to) == b.subrange(from, to),
{
    assert(b.subrange(from, mid) + b.subrange(mid, to) =~= b.subrange(from, to));
}

/// Where the bytes at `at` are those of `v`, `v` is read there.
pub proof fn lemma_u16_at(b: Seq<u8>, at: int, v: u16)
    requires
        0 <= at,
        at + 2 <= b.len(),
        b.subrange(at, at + 2) == u16_bytes(v),
    ensures
        u16_at(b, at) == v,
{
    let s = b.subrange(at, at + 2);
    assert(s[0] == b[at] && s[1] == b[at + 1]);
}

/// Where the bytes at `at` are those of `v`, `v` is read there.
pub proof fn lemma_u32_at(b: Seq<u8>, at: int, v: u32)
    requires
        0 <= at,
        at + 4 <= b.len(),
        b.subrange(at, at + 4) == u32_bytes(v),
    ensures
        u32_at(b, at) == v,
{
    let s = b.subrange(at, at + 4);
    assert(s[0] == b[at] && s[1] == b[at + 1] && s[2] == b[at + 2] && s[3] == b[at + 3]);
}

/// Where the bytes at `at` are those of `v`, `v` is read there.
pub proof fn lemma_u64_at(b: Seq<u8>, at: int, v: u64)
    requires
        0 <= at,
        at + 8 <= b.len(),
        b.subrange(at, at + 8) == u64_bytes(v),
    ensures
        u64_at(b, at) == v,
{
    let lo = (v % 0x1_0000_0000) as u32;
    let hi = (v / 0x1_0000_0000) as u32;
    assert(u32_bytes(lo).len() == 4);
    assert(u32_bytes(hi).len() == 4);
    assert(b.subrange(at, at + 4) =~= b.subrange(at, at + 8).subrange(0, 4));
    assert(b.subrange(at + 4, at + 8) =~= b.subrange(at, at + 8).subrange(4, 8));
    assert(u64_bytes(v).subrange(0, 4) =~= u32_bytes(lo));
    assert(u64_bytes(v).subrange(4, 8) =~= u32_bytes(hi));
    lemma_u32_at(b, at, lo);
    lemma_u32_at(b, at + 4, hi);
}

/// The two's-complement readings are inverse to each other.
pub proof fn lemma_signed_round_trip(a: i8, b: i16, c: i32)
    ensures
        i8_of(u8_of(a)) == a,
        i16_of(u16_of(b)) == b,
        i32_of(u32_of(c)) == c,
{
}

/// The two's-complement readings are inverse to each other.
pub proof fn lemma_unsigned_round_trip(a: u8, b: u16, c: u32)
    ensures
        u8_of(i8_of(a)) == a,
        u16_of(i16_of(b)) == b,
        u32_of(i32_of(c)) == c,
{
}

/// Reads the unsigned 16-bit number stored at `at`.
pub fn read_u16(b: &[u8], at: usize) -> (v: u16)
    requires
        at + 2 <= b.len(),
    ensures
        v == u16_at(b@, at as int),
{
    b[at] as u16 + 0x100 * (b[at + 1] as u16)
}

/// Reads the unsigned 32-bit number stored at `at`.
pub fn read_u32(b: &[u8], at: usize) -> (v: u32)
    requires
        at + 4 <= b.len(),
    ensures
        v == u32_at(b@, at as int),
{
    b[at] as u32 + 0x100 * (b[at + 1] as u32) + 0x1_0000 * (b[at + 2] as u32) + 0x100_0000 * (b[at
        + 3] as u32)
}

/// Reads the unsigned 64-bit number stored at `at`.
pub fn read_u64(b: &[u8], at: usize) -> (v: u64)
    requires
        at + 8 <= b.len(),
    ensures
        v == u64_at(b@, at as int),
{
    let lo = read_u32(b, at) as u64;
    let hi = read_u32(b, at + 4) as u64;
    lo + 0x1_0000_0000 * hi
}

/// Reads the unsigned 16-bit number stored at `at`, high byte first.
pub fn read_u16_be(b: &[u8], at: usize) -> (v: u16)
    requires
        at + 2 <= b.len(),
    ensures
        v == u16_be_at(b@, at as int),
{
    0x100 * (b[at] as u16) + b[at + 1] as u16
}

/// Reads the unsigned 32-bit number stored at `at`, high byte first.
pub fn read_u32_be(b: &[u8], at: usize) -> (v: u32)
    requires
        at + 4 <= b.len(),
    ensures
        v == u32_be_at(b@, at as int),
{
    0x100_0000 * (b[at] as u32) + 0x1_0000 * (b[at + 1] as u32) + 0x100 * (b[at + 2] as u32) + b[at
        + 3] as u32
}

/// Reads the unsigned 64-bit number stored at `at`, high byte first.
pub fn read_u64_be(b: &[u8], at: usize) -> (v: u64)
    requires
        at + 8 <= b.len(),
    ensures
        v == u64_be_at(b@, at as int),
{
    let hi = read_u32_be(b, at) as u64;
    let lo = read_u32_be(b, at + 4) as u64;
    0x1_0000_0000 * hi + lo
}

/// The signed reading of 8 bits.
pub fn to_i8(v: u8) -> (r: i8)
    ensures
        r == i8_of(v),
{
    if v < 0x80 {
        v as i8
    } else {
        (v - 0x80) as i8 + i8::MIN
    }
}

/// The signed reading of 16 bits.
pub fn to_i16(v: u16) -> (r: i16)
    ensures
        r == i16_of(v),
{
    if v < 0x8000 {
        v as i16
    } else {
        (v - 0x8000) as i16 + i16::MIN
    }
}

/// The signed reading of 32 bits.
pub fn to_i32(v: u32) -> (r: i32)
    ensures
        r == i32_of(v),
{
    if v < 0x8000_0000 {
        v as i32
    } else {
        (v - 0x8000_0000) as i32 + i32::MIN
    }
}

/// The 8 bits of a signed number.
pub fn from_i8(v: i8) -> (r: u8)
    ensures
        r == u8_of(v),
{
    if v >= 0 {
        v as u8
    } else {
        (v - i8::MIN) as u8 + 0x80
    }
}

/// The 16 bits of a signed number.
pub fn from_i16(v: i16) -> (r: u16)
    ensures
        r == u16_of(v),
{
    if v >= 0 {
        v as u16
    } else {
        (v - i16::MIN) as u16 + 0x8000
    }
}

/// The 32 bits of a signed number.
pub fn from_i32(v: i32) -> (r: u32)
    ensures
        r == u32_of(v),
{
    if v >= 0 {
        v as u32
    } else {
        (v - i32::MIN) as u32 + 0x8000_0000
    }
}

/// Appends the two bytes of `v`.
pub fn push_u16(out: &mut Vec<u8>, v: u16)
    ensures
        final(out)@ == old(out)@ + u16_bytes(v),
{
    out.push((v % 0x100) as u8);
    out.push((v / 0x100) as u8);
    assert(out@ =~= old(out)@ + u16_bytes(v));
}

/// Appends the four bytes of `v`.
pub fn push_u32(out: &mut Vec<u8>, v: u32)
    ensures
        final(out)@ == old(out)@ + u32_bytes(v),
{
    out.push((v % 0x100) as u8);
    out.push((v / 0x100 % 0x100) as u8);
    out.push((v / 0x1_0000 % 0x100) as u8);
    out.push((v / 0x100_0000) as u8);
    assert(out@ =~= old(out)@ + u32_bytes(v));
}

/// Appends the eight bytes of `v`.
pub fn push_u64(out: &mut Vec<u8>, v: u64)
    ensures
        final(out)@ == old(out)@ + u64_bytes(v),
{
    push_u32(out, (v % 0x1_0000_0000) as u32);
    push_u32(out, (v / 0x1_0000_0000) as u32);
    assert(out@ =~= old(out)@ + u64_bytes(v));
}

/// Appends `len` bytes of `src`, starting at `from`.
pub fn push_range(out: &mut Vec<u8>, src: &[u8], from: usize, len: usize)
    requires
        from + len <= src.len(),
    ensures
        final(out)@ == old(out)@ + src@.subrange(from as int, from + len),
{
    let mut i: usize = 0;
    while i < len
        invariant
            i <= len,
            from + len <= src.len(),
            out@ == old(out)@ + src@.subrange(from as int, from + i),
        decreases len - i,
    {
        out.push(src[from + i]);
        i += 1;
        assert(out@ =~= old(out)@ + src@.subrange(from as int, from + i));
    }
}

/// A copy of `len` bytes of `src`, starting at `from`.
pub fn copy_range(src: &[u8], from: usize, len: usize) -> (out: Vec<u8>)
    requires
        from + len <= src.len(),
    ensures
        out@ == src@.subrange(from as int, from + len),
{
    let mut out: Vec<u8> = Vec::new();
    push_range(&mut out, src, from, len);
    assert(out@ =~= src@.subrange(from as int, from + len));
    out
}

} // verus!
