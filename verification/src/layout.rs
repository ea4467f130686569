//! The fields of a point record as the compressed stream sees them: for
//! each format the widths of its fields in bytes, in the order of the
//! record, and the number that a field of a record's bytes holds.

use vstd::prelude::*;
use crate::bytes::{
    lemma_u16_at, lemma_u16_bytes_of_read, lemma_u32_at, lemma_u32_bytes_of_read, lemma_u64_at,
    lemma_u64_bytes_of_read, push_u16, push_u32, push_u64, read_u16, read_u32, read_u64, u16_at,
    u16_bytes, u32_at, u32_bytes, u64_at, u64_bytes,
};
use crate::point::{record_length, MAX_FORMAT};
use crate::varint::modulus;

verus! {

/// The widths of the fields that the formats 0 to 5 share.
pub open spec fn core_widths() -> Seq<u8> {
    seq![4u8, 4u8, 4u8, 2u8, 1u8, 1u8, 1u8, 1u8, 2u8]
}

/// The widths of the fields that the formats 6 to 10 share.
pub open spec fn extended_widths() -> Seq<u8> {
    seq![4u8, 4u8, 4u8, 2u8, 1u8, 1u8, 1u8, 1u8, 2u8, 2u8, 8u8]
}

/// The widths of the fields of a colour.
pub open spec fn rgb_widths() -> Seq<u8> {
    seq![2u8, 2u8, 2u8]
}

/// The widths of the fields of a waveform packet reference.
pub open spec fn wave_widths() -> Seq<u8> {
    seq![1u8, 8u8, 4u8, 4u8, 4u8, 4u8, 4u8]
}

/// The widths of the fields of a record of the given format, in the order
/// of the record, for the formats 0 to 10.
pub open spec fn field_widths(format: u8) -> Seq<u8> {
    match format {
        0 => core_widths(),
        1 => core_widths() + seq![8u8],
        2 => core_widths() + rgb_widths(),
        3 => core_widths() + seq![8u8] + rgb_widths(),
        4 => core_widths() + seq![8u8] + wave_widths(),
        5 => core_widths() + seq![8u8] + rgb_widths() + wave_widths(),
        6 => extended_widths(),
        7 => extended_widths() + rgb_widths(),
        8 => extended_widths() + rgb_widths() + seq![2u8],
        9 => extended_widths() + wave_widths(),
        _ => extended_widths() + rgb_widths() + seq![2u8] + wave_widths(),
    }
}

/// Every width is 1, 2, 4 or 8.
pub open spec fn widths_ok(widths: Seq<u8>) -> bool {
    forall|j: int|
        0 <= j < widths.len() ==> {
            let w = #[trigger] widths[j];
            w == 1 || w == 2 || w == 4 || w == 8
        }
}

/// Where field `k` starts in a record: the sum of the widths before it.
pub open spec fn offset_of(widths: Seq<u8>, k: int) -> int
    decreases k,
{
    if k <= 0 {
        0
    } else {
        offset_of(widths, k - 1) + widths[k - 1]
    }
}

/// The number of bytes of a record with fields of the given widths.
pub open spec fn total_width(widths: Seq<u8>) -> int {
    offset_of(widths, widths.len() as int)
}

/// The number that the `width` bytes at `at` hold, low byte first.
pub open spec fn field_at(b: Seq<u8>, at: int, width: u8) -> int {
    if width == 1 {
        b[at] as int
    } else if width == 2 {
        u16_at(b, at) as int
    } else if width == 4 {
        u32_at(b, at) as int
    } else {
        u64_at(b, at) as int
    }
}

/// The `width` bytes that hold the number `v`, low byte first.
pub open spec fn field_bytes(v: int, width: u8) -> Seq<u8> {
    if width == 1 {
        seq![v as u8]
    } else if width == 2 {
        u16_bytes(v as u16)
    } else if width == 4 {
        u32_bytes(v as u32)
    } else {
        u64_bytes(v as u64)
    }
}

/// Fields start in the order of their numbers.
pub proof fn lemma_offsets_grow(widths: Seq<u8>, j: int, k: int)
    requires
        0 <= j <= k,
    ensures
        0 <= offset_of(widths, j) <= offset_of(widths, k),
    decreases k,
{
    if j < k {
        lemma_offsets_grow(widths, j, k - 1);
    } else if k > 0 {
        lemma_offsets_grow(widths, j - 1, k - 1);
    }
}

/// A field holds a number below the modulus of its width, and writing that
/// number gives the field's bytes.
pub proof fn lemma_field_of_bytes(b: Seq<u8>, at: int, width: u8)
    requires
        width == 1 || width == 2 || width == 4 || width == 8,
        0 <= at,
        at + width <= b.len(),
    ensures
        0 <= field_at(b, at, width) < modulus(width),
        field_bytes(field_at(b, at, width), width) == b.subrange(at, at + width),
{
    if width == 1 {
        assert(seq![b[at]] =~= b.subrange(at, at + 1));
    } else if width == 2 {
        lemma_u16_bytes_of_read(b, at);
    } else if width == 4 {
        lemma_u32_bytes_of_read(b, at);
    } else {
        lemma_u64_bytes_of_read(b, at);
    }
}

/// The bytes of a number are as many as the width, and hold the number.
pub proof fn lemma_bytes_of_field(v: int, width: u8)
    requires
        width == 1 || width == 2 || width == 4 || width == 8,
        0 <= v < modulus(width),
    ensures
        field_bytes(v, width).len() == width,
        field_at(field_bytes(v, width), 0, width) == v,
{
    let s = field_bytes(v, width);
    if width == 2 {
        assert(s.subrange(0, 2) =~= s);
        lemma_u16_at(s, 0, v as u16);
    } else if width == 4 {
        assert(s.subrange(0, 4) =~= s);
        lemma_u32_at(s, 0, v as u32);
    } else if width == 8 {
        assert(u64_bytes(v as u64).len() == 8);
        assert(s.subrange(0, 8) =~= s);
        lemma_u64_at(s, 0, v as u64);
    }
}

/// The fields of a format fill its records: the widths are 1, 2, 4 or 8,
/// there are at least three fields, and the widths add up to the record's
/// length.
pub proof fn lemma_widths_fill_record(format: u8)
    requires
        format <= MAX_FORMAT,
    ensures
        widths_ok(field_widths(format)),
        field_widths(format).len() >= 3,
        total_width(field_widths(format)) == record_length(format),
{
    reveal_with_fuel(offset_of, 32);
    let w = field_widths(format);
    if format == 0 {
        assert(w.len() == 9);
    } else if format == 1 {
        assert(w.len() == 10);
    } else if format == 2 {
        assert(w.len() == 12);
    } else if format == 3 {
        assert(w.len() == 13);
    } else if format == 4 {
        assert(w.len() == 17);
    } else if format == 5 {
        assert(w.len() == 20);
    } else if format == 6 {
        assert(w.len() == 11);
    } else if format == 7 {
        assert(w.len() == 14);
    } else if format == 8 {
        assert(w.len() == 15);
    } else if format == 9 {
        assert(w.len() == 18);
    } else {
        assert(w.len() == 22);
    }
}

/// Reads the number that the `width` bytes at `at` hold.
pub(crate) fn read_field(b: &[u8], at: usize, width: u8) -> (v: u64)
    requires
        width == 1 || width == 2 || width == 4 || width == 8,
        at + width <= b.len(),
    ensures
        v == field_at(b@, at as int, width),
{
    if width == 1 {
        b[at] as u64
    } else if width == 2 {
        read_u16(b, at) as u64
    } else if width == 4 {
        read_u32(b, at) as u64
    } else {
        read_u64(b, at)
    }
}

/// Appends the `width` bytes that hold the number `v`.
pub(crate) fn push_field(out: &mut Vec<u8>, v: u64, width: u8)
    requires
        width == 1 || width == 2 || width == 4 || width == 8,
        v < modulus(width),
    ensures
        final(out)@ == old(out)@ + field_bytes(v as int, width),
{
    if width == 1 {
        out.push(v as u8);
        assert(out@ =~= old(out)@ + field_bytes(v as int, width));
    } else if width == 2 {
        push_u16(out, v as u16);
    } else if width == 4 {
        push_u32(out, v as u32);
    } else {
        push_u64(out, v);
    }
}

/// The widths of the fields of a record of the given format.
pub(crate) fn widths_of(format: u8) -> (widths: Vec<u8>)
    requires
        format <= MAX_FORMAT,
    ensures
        widths@ == field_widths(format),
{
    let mut w: Vec<u8> = if format <= 5 {
        vec![4u8, 4u8, 4u8, 2u8, 1u8, 1u8, 1u8, 1u8, 2u8]
    } else {
        vec![4u8, 4u8, 4u8, 2u8, 1u8, 1u8, 1u8, 1u8, 2u8, 2u8, 8u8]
    };
    if format == 1 || format == 3 || format == 4 || format == 5 {
        w.push(8);
    }
    if format == 2 || format == 3 || format == 5 || format == 7 || format == 8 || format == 10 {
        w.push(2);
        w.push(2);
        w.push(2);
    }
    if format == 8 || format == 10 {
        w.push(2);
    }
    if format == 4 || format == 5 || format == 9 || format == 10 {
        w.push(1);
        w.push(8);
        w.push(4);
        w.push(4);
        w.push(4);
        w.push(4);
        w.push(4);
    }
    assert(w@ =~= field_widths(format));
    w
}

} // verus!
