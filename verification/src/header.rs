//! The file header: what it holds, how it is read from the start of a file
//! and how it is written.

use vstd::prelude::*;
use crate::bytes::{
    copy_range, lemma_join, lemma_u16_at, lemma_u16_bytes_of_read, lemma_u32_at,
    lemma_u32_bytes_of_read, lemma_u64_at, lemma_u64_bytes_of_read, push_range, push_u16,
    push_u32, push_u64, read_u16, read_u32, read_u64, u16_at, u16_bytes, u32_at, u32_bytes,
    u64_at, u64_bytes,
};
use crate::error::LasError;

verus! {

/// The scale factors and offsets that turn stored coordinates into real
/// ones, each as the 64 bits of an IEEE 754 number.
#[derive(Clone, Copy, Debug, PartialEq, Eq, Structural)]
pub struct Transform {
    pub x_scale: u64,
    pub y_scale: u64,
    pub z_scale: u64,
    pub x_offset: u64,
    pub y_offset: u64,
    pub z_offset: u64,
}

/// The bounding box of the points, each bound as the 64 bits of an IEEE 754
/// number, in the order in which the header stores them.
#[derive(Clone, Copy, Debug, PartialEq, Eq, Structural)]
pub struct Bounds {
    pub max_x: u64,
    pub min_x: u64,
    pub max_y: u64,
    pub min_y: u64,
    pub max_z: u64,
    pub min_z: u64,
}

/// What a header holds.
pub struct HeaderView {
    pub file_source_id: u16,
    pub global_encoding: u16,
    pub project_id: Seq<u8>,
    pub version_major: u8,
    pub version_minor: u8,
    pub system_identifier: Seq<u8>,
    pub generating_software: Seq<u8>,
    pub creation_day: u16,
    pub creation_year: u16,
    pub header_size: u16,
    pub offset_to_point_data: u32,
    pub vlr_count: u32,
    pub point_format: u8,
    pub compressed: bool,
    pub point_record_length: u16,
    pub legacy_point_count: u32,
    pub legacy_points_by_return: Seq<u8>,
    pub transform: Transform,
    pub bounds: Bounds,
    pub waveform_start: u64,
    pub first_evlr: u64,
    pub evlr_count: u32,
    pub extended_point_count: u64,
    pub points_by_return: Seq<u8>,
    pub extension: Seq<u8>,
}

/// A file header.
#[derive(Clone, Debug, PartialEq, Eq)]
pub struct Header {
    pub file_source_id: u16,
    /// The global encoding flags: bit 0 says that GPS times are absolute,
    /// bits 1 and 2 where the waveform data lies, bit 3 that return numbers
    /// are synthetic, bit 4 that the coordinate reference system is given
    /// as text.
    pub global_encoding: u16,
    /// The 16 bytes of the project ID.
    pub project_id: Vec<u8>,
    pub version_major: u8,
    pub version_minor: u8,
    /// The 32 bytes of the system identifier.
    pub system_identifier: Vec<u8>,
    /// The 32 bytes that name the generating software.
    pub generating_software: Vec<u8>,
    pub creation_day: u16,
    pub creation_year: u16,
    pub header_size: u16,
    pub offset_to_point_data: u32,
    pub vlr_count: u32,
    /// The code of the point record format, without the bit that marks a
    /// compressed file.
    pub point_format: u8,
    /// Whether the points are stored as a compressed stream.
    pub compressed: bool,
    pub point_record_length: u16,
    pub legacy_point_count: u32,
    /// The numbers of points by return, five of four bytes each.
    pub legacy_points_by_return: Vec<u8>,
    pub transform: Transform,
    pub bounds: Bounds,
    /// Where the waveform data starts; from version 1.3 on.
    pub waveform_start: u64,
    /// Where the first extended variable length record starts; version 1.4.
    pub first_evlr: u64,
    /// The number of extended variable length records; version 1.4.
    pub evlr_count: u32,
    /// The number of points; version 1.4.
    pub extended_point_count: u64,
    /// The numbers of points by return, fifteen of eight bytes each; version
    /// 1.4, empty before.
    pub points_by_return: Vec<u8>,
    /// The bytes of the header that follow the fields of its version.
    pub extension: Vec<u8>,
}

impl View for Header {
    type V = HeaderView;

    open spec fn view(&self) -> HeaderView {
        HeaderView {
            file_source_id: self.file_source_id,
            global_encoding: self.global_encoding,
            project_id: self.project_id@,
            version_major: self.version_major,
            version_minor: self.version_minor,
            system_identifier: self.system_identifier@,
            generating_software: self.generating_software@,
            creation_day: self.creation_day,
            creation_year: self.creation_year,
            header_size: self.header_size,
            offset_to_point_data: self.offset_to_point_data,
            vlr_count: self.vlr_count,
            point_format: self.point_format,
            compressed: self.compressed,
            point_record_length: self.point_record_length,
            legacy_point_count: self.legacy_point_count,
            legacy_points_by_return: self.legacy_points_by_return@,
            transform: self.transform,
            bounds: self.bounds,
            waveform_start: self.waveform_start,
            first_evlr: self.first_evlr,
            evlr_count: self.evlr_count,
            extended_point_count: self.extended_point_count,
            points_by_return: self.points_by_return@,
            extension: self.extension@,
        }
    }
}

/// The number of bytes that the fields of a header of version 1.`minor`
/// take.
pub open spec fn base_size(minor: u8) -> int {
    if minor <= 2 {
        227
    } else if minor == 3 {
        235
    } else {
        375
    }
}

/// Whether the 64 bits stand for a number other than zero: any bit but the
/// sign is set.
pub open spec fn is_nonzero(bits: u64) -> bool {
    bits % 0x8000_0000_0000_0000 != 0
}

/// The byte that stores the point format and whether the file is
/// compressed.
pub open spec fn format_byte(point_format: u8, compressed: bool) -> u8 {
    if compressed {
        (point_format + 128) as u8
    } else {
        point_format
    }
}

impl HeaderView {
    /// Whether bit `bit` of the global encoding is set.
    pub open spec fn encoding_bit(self, bit: nat) -> bool {
        if bit == 0 {
            self.global_encoding % 2 == 1
        } else if bit == 1 {
            self.global_encoding / 2 % 2 == 1
        } else if bit == 2 {
            self.global_encoding / 4 % 2 == 1
        } else if bit == 3 {
            self.global_encoding / 8 % 2 == 1
        } else {
            self.global_encoding / 16 % 2 == 1
        }
    }

    /// The number of points of return `i` that the header declares: in a
    /// file of version 1.4 one of fifteen numbers of 64 bits, before one of
    /// five numbers of 32 bits; `None` for another return, and where the
    /// header has not the bytes of these numbers.
    pub open spec fn points_of_return(self, i: int) -> Option<u64> {
        if self.version_minor == 4 {
            if 0 <= i < 15 && self.points_by_return.len() == 120 {
                Some(u64_at(self.points_by_return, 8 * i))
            } else {
                None
            }
        } else if 0 <= i < 5 && self.legacy_points_by_return.len() == 20 {
            Some(u32_at(self.legacy_points_by_return, 4 * i) as u64)
        } else {
            None
        }
    }

    /// The number of points that the header declares: that of version 1.4
    /// in a file of that version, the older one before.
    pub open spec fn point_count(self) -> u64 {
        if self.version_minor == 4 {
            self.extended_point_count
        } else {
            self.legacy_point_count as u64
        }
    }

    /// The header is one that a file can have: its version is 1.0 to 1.4,
    /// its byte fields have their lengths, it holds no field of a later
    /// version, its size is that of its fields and its extension, the
    /// points start after it, and no scale factor is zero.
    pub open spec fn wf(self) -> bool {
        &&& self.version_major == 1
        &&& self.version_minor <= 4
        &&& self.project_id.len() == 16
        &&& self.system_identifier.len() == 32
        &&& self.generating_software.len() == 32
        &&& self.legacy_points_by_return.len() == 20
        &&& self.version_minor < 3 ==> self.waveform_start == 0
        &&& if self.version_minor == 4 {
            self.points_by_return.len() == 120
        } else {
            &&& self.first_evlr == 0
            &&& self.evlr_count == 0
            &&& self.extended_point_count == 0
            &&& self.points_by_return.len() == 0
        }
        &&& self.header_size == base_size(self.version_minor) + self.extension.len()
        &&& self.point_format < 128
        &&& self.offset_to_point_data >= self.header_size
        &&& is_nonzero(self.transform.x_scale)
        &&& is_nonzero(self.transform.y_scale)
        &&& is_nonzero(self.transform.z_scale)
    }

    /// The points that the header declares lie within a file of `file_len`
    /// bytes: all their records, or, in a compressed file, their start.
    pub open spec fn fits(self, file_len: int) -> bool {
        if self.compressed {
            self.offset_to_point_data <= file_len
        } else {
            self.offset_to_point_data + self.point_record_length * self.point_count() <= file_len
        }
    }

    /// The header's bytes.
    pub open spec fn bytes(self) -> Seq<u8> {
        ident_bytes(self) + naming_bytes(self) + layout_bytes(self) + six_bytes(
            self.transform.x_scale,
            self.transform.y_scale,
            self.transform.z_scale,
            self.transform.x_offset,
            self.transform.y_offset,
            self.transform.z_offset,
        ) + six_bytes(
            self.bounds.max_x,
            self.bounds.min_x,
            self.bounds.max_y,
            self.bounds.min_y,
            self.bounds.max_z,
            self.bounds.min_z,
        ) + later_bytes(self) + self.extension
    }
}

/// Bytes 0 to 23: the signature, the file source ID, the global encoding
/// and the project ID.
#[verifier::opaque]
pub open spec fn ident_bytes(h: HeaderView) -> Seq<u8> {
    seq![0x4Cu8, 0x41u8, 0x53u8, 0x46u8] + u16_bytes(h.file_source_id) + u16_bytes(
        h.global_encoding,
    ) + h.project_id
}

/// Bytes 24 to 93: the version, the system identifier, the generating
/// software and the day of creation.
#[verifier::opaque]
pub open spec fn naming_bytes(h: HeaderView) -> Seq<u8> {
    seq![h.version_major, h.version_minor] + h.system_identifier + h.generating_software
        + u16_bytes(h.creation_day) + u16_bytes(h.creation_year)
}

/// Bytes 94 to 130: the header's size, where the points start, the number
/// of variable length records, the point format and record length, and the
/// numbers of points.
#[verifier::opaque]
pub open spec fn layout_bytes(h: HeaderView) -> Seq<u8> {
    u16_bytes(h.header_size) + u32_bytes(h.offset_to_point_data) + u32_bytes(h.vlr_count) + seq![
        format_byte(h.point_format, h.compressed),
    ] + u16_bytes(h.point_record_length) + u32_bytes(h.legacy_point_count)
        + h.legacy_points_by_return
}

/// The 48 bytes of six numbers of 64 bits.
#[verifier::opaque]
pub open spec fn six_bytes(a: u64, b: u64, c: u64, d: u64, e: u64, f: u64) -> Seq<u8> {
    u64_bytes(a) + u64_bytes(b) + u64_bytes(c) + u64_bytes(d) + u64_bytes(e) + u64_bytes(f)
}

/// The bytes of the fields that the versions 1.3 and 1.4 added.
#[verifier::opaque]
pub open spec fn later_bytes(h: HeaderView) -> Seq<u8> {
    if h.version_minor <= 2 {
        Seq::empty()
    } else if h.version_minor == 3 {
        u64_bytes(h.waveform_start)
    } else {
        u64_bytes(h.waveform_start) + u64_bytes(h.first_evlr) + u32_bytes(h.evlr_count)
            + u64_bytes(h.extended_point_count) + h.points_by_return
    }
}

/// Whether `b` starts with the signature `LASF`.
pub open spec fn has_signature(b: Seq<u8>) -> bool {
    b.len() >= 4 && b[0] == 0x4C && b[1] == 0x41 && b[2] == 0x53 && b[3] == 0x46
}

/// The header that the bytes `b` hold, read by the version that they
/// declare.
pub open spec fn header_at(b: Seq<u8>) -> HeaderView {
    let minor = b[25];
    let size = u16_at(b, 94);
    HeaderView {
        file_source_id: u16_at(b, 4),
        global_encoding: u16_at(b, 6),
        project_id: b.subrange(8, 24),
        version_major: b[24],
        version_minor: minor,
        system_identifier: b.subrange(26, 58),
        generating_software: b.subrange(58, 90),
        creation_day: u16_at(b, 90),
        creation_year: u16_at(b, 92),
        header_size: size,
        offset_to_point_data: u32_at(b, 96),
        vlr_count: u32_at(b, 100),
        point_format: b[104] % 128,
        compressed: b[104] >= 128,
        point_record_length: u16_at(b, 105),
        legacy_point_count: u32_at(b, 107),
        legacy_points_by_return: b.subrange(111, 131),
        transform: Transform {
            x_scale: u64_at(b, 131),
            y_scale: u64_at(b, 139),
            z_scale: u64_at(b, 147),
            x_offset: u64_at(b, 155),
            y_offset: u64_at(b, 163),
            z_offset: u64_at(b, 171),
        },
        bounds: Bounds {
            max_x: u64_at(b, 179),
            min_x: u64_at(b, 187),
            max_y: u64_at(b, 195),
            min_y: u64_at(b, 203),
            max_z: u64_at(b, 211),
            min_z: u64_at(b, 219),
        },
        waveform_start: if minor >= 3 {
            u64_at(b, 227)
        } else {
            0
        },
        first_evlr: if minor == 4 {
            u64_at(b, 235)
        } else {
            0
        },
        evlr_count: if minor == 4 {
            u32_at(b, 243)
        } else {
            0
        },
        extended_point_count: if minor == 4 {
            u64_at(b, 247)
        } else {
            0
        },
        points_by_return: if minor == 4 {
            b.subrange(255, 375)
        } else {
            Seq::empty()
        },
        extension: b.subrange(base_size(minor), size as int),
    }
}

/// Whether the file `b` starts with a header that can be read: the
/// signature is there, the version is 1.0 to 1.4, the header's declared
/// size holds the fields of its version and lies within the file, the
/// points start after the header and lie within the file, and no scale
/// factor is zero.
pub open spec fn starts_with_header(b: Seq<u8>) -> bool {
    &&& b.len() >= 227
    &&& has_signature(b)
    &&& b[24] == 1
    &&& b[25] <= 4
    &&& base_size(b[25]) <= u16_at(b, 94) <= b.len()
    &&& u32_at(b, 96) >= u16_at(b, 94)
    &&& is_nonzero(u64_at(b, 131))
    &&& is_nonzero(u64_at(b, 139))
    &&& is_nonzero(u64_at(b, 147))
    &&& header_at(b).fits(b.len() as int)
}

/// The lengths of the parts of a header's bytes.
pub proof fn lemma_part_lengths(h: HeaderView)
    requires
        h.wf(),
    ensures
        ident_bytes(h).len() == 24,
        naming_bytes(h).len() == 70,
        layout_bytes(h).len() == 37,
        forall|a: u64, b: u64, c: u64, d: u64, e: u64, f: u64| #[trigger]
            six_bytes(a, b, c, d, e, f).len() == 48,
        later_bytes(h).len() == base_size(h.version_minor) - 227,
        h.bytes().len() == h.header_size,
{
    reveal(ident_bytes);
    reveal(naming_bytes);
    reveal(layout_bytes);
    reveal(six_bytes);
    reveal(later_bytes);
    assert forall|a: u64, b: u64, c: u64, d: u64, e: u64, f: u64| #[trigger]
        six_bytes(a, b, c, d, e, f).len() == 48 by {
        assert(u64_bytes(a).len() == 8);
        assert(u64_bytes(b).len() == 8);
        assert(u64_bytes(c).len() == 8);
        assert(u64_bytes(d).len() == 8);
        assert(u64_bytes(e).len() == 8);
        assert(u64_bytes(f).len() == 8);
    }
    assert(u64_bytes(h.waveform_start).len() == 8);
    assert(u64_bytes(h.first_evlr).len() == 8);
    assert(u64_bytes(h.extended_point_count).len() == 8);
}

/// The first part of a header is read back from its bytes.
proof fn lemma_ident_at(b: Seq<u8>, h: HeaderView)
    requires
        b.len() >= 24,
        h.project_id.len() == 16,
        b.subrange(0, 24) == ident_bytes(h),
    ensures
        has_signature(b),
        u16_at(b, 4) == h.file_source_id,
        u16_at(b, 6) == h.global_encoding,
        b.subrange(8, 24) == h.project_id,
{
    reveal(ident_bytes);
    let s = ident_bytes(h);
    assert(b[0] == b.subrange(0, 24)[0]);
    assert(b[1] == b.subrange(0, 24)[1]);
    assert(b[2] == b.subrange(0, 24)[2]);
    assert(b[3] == b.subrange(0, 24)[3]);
    assert(b.subrange(4, 6) =~= s.subrange(4, 6));
    assert(s.subrange(4, 6) =~= u16_bytes(h.file_source_id));
    assert(b.subrange(6, 8) =~= s.subrange(6, 8));
    assert(s.subrange(6, 8) =~= u16_bytes(h.global_encoding));
    assert(b.subrange(8, 24) =~= s.subrange(8, 24));
    assert(s.subrange(8, 24) =~= h.project_id);
    lemma_u16_at(b, 4, h.file_source_id);
    lemma_u16_at(b, 6, h.global_encoding);
}

/// The second part of a header is read back from its bytes.
proof fn lemma_naming_at(b: Seq<u8>, h: HeaderView)
    requires
        b.len() >= 94,
        h.system_identifier.len() == 32,
        h.generating_software.len() == 32,
        b.subrange(24, 94) == naming_bytes(h),
    ensures
        b[24] == h.version_major,
        b[25] == h.version_minor,
        b.subrange(26, 58) == h.system_identifier,
        b.subrange(58, 90) == h.generating_software,
        u16_at(b, 90) == h.creation_day,
        u16_at(b, 92) == h.creation_year,
{
    reveal(naming_bytes);
    let s = naming_bytes(h);
    assert(b[24] == b.subrange(24, 94)[0]);
    assert(b[25] == b.subrange(24, 94)[1]);
    assert(b.subrange(26, 58) =~= s.subrange(2, 34));
    assert(s.subrange(2, 34) =~= h.system_identifier);
    assert(b.subrange(58, 90) =~= s.subrange(34, 66));
    assert(s.subrange(34, 66) =~= h.generating_software);
    assert(b.subrange(90, 92) =~= s.subrange(66, 68));
    assert(s.subrange(66, 68) =~= u16_bytes(h.creation_day));
    assert(b.subrange(92, 94) =~= s.subrange(68, 70));
    assert(s.subrange(68, 70) =~= u16_bytes(h.creation_year));
    lemma_u16_at(b, 90, h.creation_day);
    lemma_u16_at(b, 92, h.creation_year);
}

/// The third part of a header is read back from its bytes.
proof fn lemma_layout_at(b: Seq<u8>, h: HeaderView)
    requires
        b.len() >= 131,
        h.legacy_points_by_return.len() == 20,
        h.point_format < 128,
        b.subrange(94, 131) == layout_bytes(h),
    ensures
        u16_at(b, 94) == h.header_size,
        u32_at(b, 96) == h.offset_to_point_data,
        u32_at(b, 100) == h.vlr_count,
        b[104] % 128 == h.point_format,
        b[104] >= 128 <==> h.compressed,
        u16_at(b, 105) == h.point_record_length,
        u32_at(b, 107) == h.legacy_point_count,
        b.subrange(111, 131) == h.legacy_points_by_return,
{
    reveal(layout_bytes);
    let s = layout_bytes(h);
    assert(b.subrange(94, 96) =~= s.subrange(0, 2));
    assert(s.subrange(0, 2) =~= u16_bytes(h.header_size));
    assert(b.subrange(96, 100) =~= s.subrange(2, 6));
    assert(s.subrange(2, 6) =~= u32_bytes(h.offset_to_point_data));
    assert(b.subrange(100, 104) =~= s.subrange(6, 10));
    assert(s.subrange(6, 10) =~= u32_bytes(h.vlr_count));
    assert(b[104] == b.subrange(94, 131)[10]);
    assert(s[10] == format_byte(h.point_format, h.compressed));
    assert(b.subrange(105, 107) =~= s.subrange(11, 13));
    assert(s.subrange(11, 13) =~= u16_bytes(h.point_record_length));
    assert(b.subrange(107, 111) =~= s.subrange(13, 17));
    assert(s.subrange(13, 17) =~= u32_bytes(h.legacy_point_count));
    assert(b.subrange(111, 131) =~= s.subrange(17, 37));
    assert(s.subrange(17, 37) =~= h.legacy_points_by_return);
    lemma_u16_at(b, 94, h.header_size);
    lemma_u32_at(b, 96, h.offset_to_point_data);
    lemma_u32_at(b, 100, h.vlr_count);
    lemma_u16_at(b, 105, h.point_record_length);
    lemma_u32_at(b, 107, h.legacy_point_count);
}

/// Six numbers are read back from their bytes.
proof fn lemma_six_at(b: Seq<u8>, at: int, n0: u64, n1: u64, n2: u64, n3: u64, n4: u64, n5: u64)
    requires
        0 <= at,
        at + 48 <= b.len(),
        b.subrange(at, at + 48) == six_bytes(n0, n1, n2, n3, n4, n5),
    ensures
        u64_at(b, at) == n0,
        u64_at(b, at + 8) == n1,
        u64_at(b, at + 16) == n2,
        u64_at(b, at + 24) == n3,
        u64_at(b, at + 32) == n4,
        u64_at(b, at + 40) == n5,
{
    reveal(six_bytes);
    let s = six_bytes(n0, n1, n2, n3, n4, n5);
    assert(u64_bytes(n0).len() == 8);
    assert(u64_bytes(n1).len() == 8);
    assert(u64_bytes(n2).len() == 8);
    assert(u64_bytes(n3).len() == 8);
    assert(u64_bytes(n4).len() == 8);
    assert(u64_bytes(n5).len() == 8);
    assert(b.subrange(at, at + 8) =~= s.subrange(0, 8));
    assert(s.subrange(0, 8) =~= u64_bytes(n0));
    assert(b.subrange(at + 8, at + 16) =~= s.subrange(8, 16));
    assert(s.subrange(8, 16) =~= u64_bytes(n1));
    assert(b.subrange(at + 16, at + 24) =~= s.subrange(16, 24));
    assert(s.subrange(16, 24) =~= u64_bytes(n2));
    assert(b.subrange(at + 24, at + 32) =~= s.subrange(24, 32));
    assert(s.subrange(24, 32) =~= u64_bytes(n3));
    assert(b.subrange(at + 32, at + 40) =~= s.subrange(32, 40));
    assert(s.subrange(32, 40) =~= u64_bytes(n4));
    assert(b.subrange(at + 40, at + 48) =~= s.subrange(40, 48));
    assert(s.subrange(40, 48) =~= u64_bytes(n5));
    lemma_u64_at(b, at, n0);
    lemma_u64_at(b, at + 8, n1);
    lemma_u64_at(b, at + 16, n2);
    lemma_u64_at(b, at + 24, n3);
    lemma_u64_at(b, at + 32, n4);
    lemma_u64_at(b, at + 40, n5);
}

/// The fields of the later versions are read back from their bytes.
proof fn lemma_later_at(b: Seq<u8>, h: HeaderView)
    requires
        h.version_minor <= 4,
        h.version_minor == 4 ==> h.points_by_return.len() == 120,
        b.len() >= base_size(h.version_minor),
        b.subrange(227, base_size(h.version_minor)) == later_bytes(h),
    ensures
        h.version_minor >= 3 ==> u64_at(b, 227) == h.waveform_start,
        h.version_minor == 4 ==> {
            &&& u64_at(b, 235) == h.first_evlr
            &&& u32_at(b, 243) == h.evlr_count
            &&& u64_at(b, 247) == h.extended_point_count
            &&& b.subrange(255, 375) == h.points_by_return
        },
{
    reveal(later_bytes);
    let s = later_bytes(h);
    assert(u64_bytes(h.waveform_start).len() == 8);
    assert(u64_bytes(h.first_evlr).len() == 8);
    assert(u64_bytes(h.extended_point_count).len() == 8);
    if h.version_minor >= 3 {
        assert(b.subrange(227, 235) =~= s.subrange(0, 8));
        assert(s.subrange(0, 8) =~= u64_bytes(h.waveform_start));
        lemma_u64_at(b, 227, h.waveform_start);
    }
    if h.version_minor == 4 {
        assert(b.subrange(235, 243) =~= s.subrange(8, 16));
        assert(s.subrange(8, 16) =~= u64_bytes(h.first_evlr));
        assert(b.subrange(243, 247) =~= s.subrange(16, 20));
        assert(s.subrange(16, 20) =~= u32_bytes(h.evlr_count));
        assert(b.subrange(247, 255) =~= s.subrange(20, 28));
        assert(s.subrange(20, 28) =~= u64_bytes(h.extended_point_count));
        assert(b.subrange(255, 375) =~= s.subrange(28, 148));
        assert(s.subrange(28, 148) =~= h.points_by_return);
        lemma_u64_at(b, 235, h.first_evlr);
        lemma_u32_at(b, 243, h.evlr_count);
        lemma_u64_at(b, 247, h.extended_point_count);
    }
}

/// A header is read back from its bytes, whatever follows them: for every
/// header that a file can have, and every file that starts with its bytes
/// and is long enough for the points that it declares, reading the file's
/// header gives that header.
pub proof fn lemma_parse_of_serialized(h: HeaderView, rest: Seq<u8>)
    requires
        h.wf(),
        h.fits((h.bytes() + rest).len() as int),
    ensures
        starts_with_header(h.bytes() + rest),
        header_at(h.bytes() + rest) == h,
{
    lemma_part_lengths(h);
    let b = h.bytes() + rest;
    let t = h.transform;
    let x = h.bounds;
    let base = base_size(h.version_minor);
    assert(b.subrange(0, 24) =~= ident_bytes(h));
    assert(b.subrange(24, 94) =~= naming_bytes(h));
    assert(b.subrange(94, 131) =~= layout_bytes(h));
    assert(b.subrange(131, 179) =~= six_bytes(
        t.x_scale,
        t.y_scale,
        t.z_scale,
        t.x_offset,
        t.y_offset,
        t.z_offset,
    ));
    assert(b.subrange(179, 227) =~= six_bytes(
        x.max_x,
        x.min_x,
        x.max_y,
        x.min_y,
        x.max_z,
        x.min_z,
    ));
    assert(b.subrange(227, base) =~= later_bytes(h));
    assert(b.subrange(base, h.header_size as int) =~= h.extension);
    lemma_ident_at(b, h);
    lemma_naming_at(b, h);
    lemma_layout_at(b, h);
    lemma_six_at(b, 131, t.x_scale, t.y_scale, t.z_scale, t.x_offset, t.y_offset, t.z_offset);
    lemma_six_at(b, 179, x.max_x, x.min_x, x.max_y, x.min_y, x.max_z, x.min_z);
    lemma_later_at(b, h);
    let r = header_at(b);
    assert(r.transform == t);
    assert(r.bounds == x);
    assert(r.extension =~= h.extension);
    assert(r.points_by_return =~= h.points_by_return);
    assert(r == h);
}

/// Writing six numbers that were read gives the bytes that were read.
proof fn lemma_six_bytes_of_read(b: Seq<u8>, at: int)
    requires
        0 <= at,
        at + 48 <= b.len(),
    ensures
        six_bytes(
            u64_at(b, at),
            u64_at(b, at + 8),
            u64_at(b, at + 16),
            u64_at(b, at + 24),
            u64_at(b, at + 32),
            u64_at(b, at + 40),
        ) == b.subrange(at, at + 48),
{
    reveal(six_bytes);
    lemma_u64_bytes_of_read(b, at);
    lemma_u64_bytes_of_read(b, at + 8);
    lemma_u64_bytes_of_read(b, at + 16);
    lemma_u64_bytes_of_read(b, at + 24);
    lemma_u64_bytes_of_read(b, at + 32);
    lemma_u64_bytes_of_read(b, at + 40);
    lemma_join(b, at, at + 8, at + 16);
    lemma_join(b, at, at + 16, at + 24);
    lemma_join(b, at, at + 24, at + 32);
    lemma_join(b, at, at + 32, at + 40);
    lemma_join(b, at, at + 40, at + 48);
}

/// Writing the first part of a header that was read gives the bytes that
/// were read.
proof fn lemma_ident_of_read(b: Seq<u8>)
    requires
        b.len() >= 227,
        has_signature(b),
    ensures
        ident_bytes(header_at(b)) == b.subrange(0, 24),
{
    reveal(ident_bytes);
    assert(seq![0x4Cu8, 0x41u8, 0x53u8, 0x46u8] =~= b.subrange(0, 4));
    lemma_u16_bytes_of_read(b, 4);
    lemma_u16_bytes_of_read(b, 6);
    lemma_join(b, 0, 4, 6);
    lemma_join(b, 0, 6, 8);
    lemma_join(b, 0, 8, 24);
}

/// Writing the second part of a header that was read gives the bytes that
/// were read.
proof fn lemma_naming_of_read(b: Seq<u8>)
    requires
        b.len() >= 227,
    ensures
        naming_bytes(header_at(b)) == b.subrange(24, 94),
{
    reveal(naming_bytes);
    assert(seq![b[24], b[25]] =~= b.subrange(24, 26));
    lemma_u16_bytes_of_read(b, 90);
    lemma_u16_bytes_of_read(b, 92);
    lemma_join(b, 24, 26, 58);
    lemma_join(b, 24, 58, 90);
    lemma_join(b, 24, 90, 92);
    lemma_join(b, 24, 92, 94);
}

/// The format byte is made of the format and the mark that were read from
/// it.
proof fn lemma_format_byte(byte: u8)
    ensures
        format_byte(byte % 128, byte >= 128) == byte,
{
}

/// The bytes of the numbers read at the places of the third part of a
/// header are the bytes at those places.
proof fn lemma_layout_pieces(b: Seq<u8>)
    requires
        b.len() >= 227,
    ensures
        u16_bytes(u16_at(b, 94)) + u32_bytes(u32_at(b, 96)) + u32_bytes(u32_at(b, 100)) + seq![
            b[104],
        ] + u16_bytes(u16_at(b, 105)) + u32_bytes(u32_at(b, 107)) + b.subrange(111, 131)
            == b.subrange(94, 131),
{
    lemma_u16_bytes_of_read(b, 94);
    lemma_u32_bytes_of_read(b, 96);
    lemma_u32_bytes_of_read(b, 100);
    lemma_u16_bytes_of_read(b, 105);
    lemma_u32_bytes_of_read(b, 107);
    assert(seq![b[104]] =~= b.subrange(104, 105));
    lemma_join(b, 94, 96, 100);
    lemma_join(b, 94, 100, 104);
    lemma_join(b, 94, 104, 105);
    lemma_join(b, 94, 105, 107);
    lemma_join(b, 94, 107, 111);
    lemma_join(b, 94, 111, 131);
}

/// Writing the third part of a header that was read gives the bytes that
/// were read.
proof fn lemma_layout_of_read(b: Seq<u8>)
    requires
        b.len() >= 227,
    ensures
        layout_bytes(header_at(b)) == b.subrange(94, 131),
{
    reveal(layout_bytes);
    lemma_format_byte(b[104]);
    lemma_layout_pieces(b);
}

/// Writing the fields of the later versions that were read gives the bytes
/// that were read.
proof fn lemma_later_of_read(b: Seq<u8>)
    requires
        b[25] <= 4,
        b.len() >= base_size(b[25]),
    ensures
        later_bytes(header_at(b)) == b.subrange(227, base_size(b[25])),
{
    reveal(later_bytes);
    if b[25] <= 2 {
        assert(b.subrange(227, 227) =~= Seq::<u8>::empty());
    } else {
        lemma_u64_bytes_of_read(b, 227);
        if b[25] == 4 {
            lemma_u64_bytes_of_read(b, 235);
            lemma_u32_bytes_of_read(b, 243);
            lemma_u64_bytes_of_read(b, 247);
            lemma_join(b, 227, 235, 243);
            lemma_join(b, 227, 243, 247);
            lemma_join(b, 227, 247, 255);
            lemma_join(b, 227, 255, 375);
        }
    }
}

/// The header read from a file is one that a file can have, and writing it
/// gives the bytes that it was read from: writing undoes reading.
pub proof fn lemma_serialized_of_parsed(b: Seq<u8>)
    requires
        starts_with_header(b),
    ensures
        header_at(b).wf(),
        header_at(b).fits(b.len() as int),
        header_at(b).bytes() == b.subrange(0, header_at(b).header_size as int),
{
    let h = header_at(b);
    let base = base_size(b[25]);
    let size = h.header_size as int;
    lemma_ident_of_read(b);
    lemma_naming_of_read(b);
    lemma_layout_of_read(b);
    lemma_later_of_read(b);
    lemma_six_bytes_of_read(b, 131);
    lemma_six_bytes_of_read(b, 179);
    lemma_join(b, 0, 24, 94);
    lemma_join(b, 0, 94, 131);
    lemma_join(b, 0, 131, 179);
    lemma_join(b, 0, 179, 227);
    lemma_join(b, 0, 227, base);
    lemma_join(b, 0, base, size);
}

/// Whether the 64 bits stand for a number other than zero.
fn nonzero(bits: u64) -> (b: bool)
    ensures
        b == is_nonzero(bits),
{
    bits % 0x8000_0000_0000_0000 != 0
}

/// The number of bytes that the fields of a header of version 1.`minor`
/// take.
fn base_len(minor: u8) -> (n: usize)
    ensures
        n == base_size(minor),
{
    if minor <= 2 {
        227
    } else if minor == 3 {
        235
    } else {
        375
    }
}

/// Appends six numbers of 64 bits.
fn push_six(out: &mut Vec<u8>, a: u64, b: u64, c: u64, d: u64, e: u64, f: u64)
    ensures
        final(out)@ == old(out)@ + six_bytes(a, b, c, d, e, f),
{
    reveal(six_bytes);
    push_u64(out, a);
    push_u64(out, b);
    push_u64(out, c);
    push_u64(out, d);
    push_u64(out, e);
    push_u64(out, f);
    assert(out@ =~= old(out)@ + six_bytes(a, b, c, d, e, f));
}

impl Header {
    /// Whether the GPS times of the file are standard GPS time less a
    /// thousand million seconds; seconds of the GPS week where not. One flag
    /// says so for every record of the file.
    pub fn gps_time_is_absolute(&self) -> (b: bool)
        ensures
            b == self@.encoding_bit(0),
    {
        self.global_encoding % 2 == 1
    }

    /// Whether the waveform data lies within the file.
    pub fn waveform_is_internal(&self) -> (b: bool)
        ensures
            b == self@.encoding_bit(1),
    {
        self.global_encoding / 2 % 2 == 1
    }

    /// Whether the waveform data lies in a file of its own.
    pub fn waveform_is_external(&self) -> (b: bool)
        ensures
            b == self@.encoding_bit(2),
    {
        self.global_encoding / 4 % 2 == 1
    }

    /// Whether the return numbers were made up after the scan.
    pub fn return_numbers_are_synthetic(&self) -> (b: bool)
        ensures
            b == self@.encoding_bit(3),
    {
        self.global_encoding / 8 % 2 == 1
    }

    /// Whether the coordinate reference system is given as text; as GeoKeys
    /// where not.
    pub fn crs_is_wkt(&self) -> (b: bool)
        ensures
            b == self@.encoding_bit(4),
    {
        self.global_encoding / 16 % 2 == 1
    }

    /// The number of points of return `i` that the header declares.
    pub fn points_of_return(&self, i: usize) -> (n: Option<u64>)
        ensures
            n == self@.points_of_return(i as int),
    {
        if self.version_minor == 4 {
            if i < 15 && self.points_by_return.len() == 120 {
                Some(read_u64(self.points_by_return.as_slice(), 8 * i))
            } else {
                None
            }
        } else if i < 5 && self.legacy_points_by_return.len() == 20 {
            Some(read_u32(self.legacy_points_by_return.as_slice(), 4 * i) as u64)
        } else {
            None
        }
    }

    /// The number of points that the header declares.
    pub fn point_count(&self) -> (n: u64)
        ensures
            n == self@.point_count(),
    {
        if self.version_minor == 4 {
            self.extended_point_count
        } else {
            self.legacy_point_count as u64
        }
    }

    /// Whether the header is one that a file can have.
    pub fn is_valid(&self) -> (b: bool)
        ensures
            b == self@.wf(),
    {
        if self.version_major != 1 || self.version_minor > 4 {
            return false;
        }
        if self.project_id.len() != 16 || self.system_identifier.len() != 32
            || self.generating_software.len() != 32 || self.legacy_points_by_return.len() != 20 {
            return false;
        }
        if self.version_minor < 3 && self.waveform_start != 0 {
            return false;
        }
        if self.version_minor == 4 {
            if self.points_by_return.len() != 120 {
                return false;
            }
        } else if self.first_evlr != 0 || self.evlr_count != 0 || self.extended_point_count != 0
            || self.points_by_return.len() != 0 {
            return false;
        }
        let base = base_len(self.version_minor);
        if (self.header_size as usize) < base || self.header_size as usize - base
            != self.extension.len() {
            return false;
        }
        self.point_format < 128 && self.offset_to_point_data >= self.header_size as u32 && nonzero(
            self.transform.x_scale,
        ) && nonzero(self.transform.y_scale) && nonzero(self.transform.z_scale)
    }

    /// Whether the points that the header declares lie within a file of
    /// `file_len` bytes.
    pub fn fits(&self, file_len: usize) -> (b: bool)
        ensures
            b == self@.fits(file_len as int),
    {
        if self.compressed {
            self.offset_to_point_data as u64 <= file_len as u64
        } else {
            let length = self.point_record_length as u128;
            let count = self.point_count() as u128;
            assert(length * count <= 0xFFFF * 0xFFFF_FFFF_FFFF_FFFF) by (nonlinear_arith)
                requires
                    0 <= length <= 0xFFFF,
                    0 <= count <= 0xFFFF_FFFF_FFFF_FFFF,
            ;
            self.offset_to_point_data as u128 + length * count <= file_len as u128
        }
    }

    /// Reads the header with which the file `bytes` starts. Fails with
    /// `MalformedHeader` where the signature is missing, the version is
    /// none of 1.0 to 1.4, the header's size, the start of the points or
    /// their end do not fit the file, or a scale factor is zero.
    pub fn parse(bytes: &[u8]) -> (r: Result<Header, LasError>)
        ensures
            starts_with_header(bytes@) ==> (r matches Ok(h) && h@ == header_at(bytes@)),
            !starts_with_header(bytes@) ==> (r matches Err(e) && e == LasError::MalformedHeader),
    {
        let b = bytes;
        if b.len() < 227 {
            return Err(LasError::MalformedHeader);
        }
        if b[0] != 0x4C || b[1] != 0x41 || b[2] != 0x53 || b[3] != 0x46 {
            return Err(LasError::MalformedHeader);
        }
        let minor = b[25];
        if b[24] != 1 || minor > 4 {
            return Err(LasError::MalformedHeader);
        }
        let size = read_u16(b, 94);
        let base = base_len(minor);
        if (size as usize) < base || size as usize > b.len() {
            return Err(LasError::MalformedHeader);
        }
        let offset_to_point_data = read_u32(b, 96);
        if offset_to_point_data < size as u32 {
            return Err(LasError::MalformedHeader);
        }
        let transform = Transform {
            x_scale: read_u64(b, 131),
            y_scale: read_u64(b, 139),
            z_scale: read_u64(b, 147),
            x_offset: read_u64(b, 155),
            y_offset: read_u64(b, 163),
            z_offset: read_u64(b, 171),
        };
        if !nonzero(transform.x_scale) || !nonzero(transform.y_scale) || !nonzero(
            transform.z_scale,
        ) {
            return Err(LasError::MalformedHeader);
        }
        let header = Header {
            file_source_id: read_u16(b, 4),
            global_encoding: read_u16(b, 6),
            project_id: copy_range(b, 8, 16),
            version_major: b[24],
            version_minor: minor,
            system_identifier: copy_range(b, 26, 32),
            generating_software: copy_range(b, 58, 32),
            creation_day: read_u16(b, 90),
            creation_year: read_u16(b, 92),
            header_size: size,
            offset_to_point_data,
            vlr_count: read_u32(b, 100),
            point_format: b[104] % 128,
            compressed: b[104] >= 128,
            point_record_length: read_u16(b, 105),
            legacy_point_count: read_u32(b, 107),
            legacy_points_by_return: copy_range(b, 111, 20),
            transform,
            bounds: Bounds {
                max_x: read_u64(b, 179),
                min_x: read_u64(b, 187),
                max_y: read_u64(b, 195),
                min_y: read_u64(b, 203),
                max_z: read_u64(b, 211),
                min_z: read_u64(b, 219),
            },
            waveform_start: if minor >= 3 {
                read_u64(b, 227)
            } else {
                0
            },
            first_evlr: if minor == 4 {
                read_u64(b, 235)
            } else {
                0
            },
            evlr_count: if minor == 4 {
                read_u32(b, 243)
            } else {
                0
            },
            extended_point_count: if minor == 4 {
                read_u64(b, 247)
            } else {
                0
            },
            points_by_return: if minor == 4 {
                copy_range(b, 255, 120)
            } else {
                Vec::new()
            },
            extension: copy_range(b, base, size as usize - base),
        };
        assert(header@.points_by_return =~= header_at(b@).points_by_return);
        assert(header@ == header_at(b@));
        if !header.fits(b.len()) {
            return Err(LasError::MalformedHeader);
        }
        Ok(header)
    }

    /// Appends bytes 0 to 23 of the header.
    fn push_ident(&self, out: &mut Vec<u8>)
        requires
            self.project_id@.len() == 16,
        ensures
            final(out)@ == old(out)@ + ident_bytes(self@),
    {
        reveal(ident_bytes);
        out.push(0x4C);
        out.push(0x41);
        out.push(0x53);
        out.push(0x46);
        push_u16(out, self.file_source_id);
        push_u16(out, self.global_encoding);
        push_range(out, self.project_id.as_slice(), 0, 16);
        assert(self.project_id@.subrange(0, 16) =~= self.project_id@);
        assert(out@ =~= old(out)@ + ident_bytes(self@));
    }

    /// Appends bytes 24 to 93 of the header.
    fn push_naming(&self, out: &mut Vec<u8>)
        requires
            self.system_identifier@.len() == 32,
            self.generating_software@.len() == 32,
        ensures
            final(out)@ == old(out)@ + naming_bytes(self@),
    {
        reveal(naming_bytes);
        out.push(self.version_major);
        out.push(self.version_minor);
        push_range(out, self.system_identifier.as_slice(), 0, 32);
        push_range(out, self.generating_software.as_slice(), 0, 32);
        push_u16(out, self.creation_day);
        push_u16(out, self.creation_year);
        assert(self.system_identifier@.subrange(0, 32) =~= self.system_identifier@);
        assert(self.generating_software@.subrange(0, 32) =~= self.generating_software@);
        assert(out@ =~= old(out)@ + naming_bytes(self@));
    }

    /// Appends bytes 94 to 130 of the header.
    fn push_layout(&self, out: &mut Vec<u8>)
        requires
            self.legacy_points_by_return@.len() == 20,
            self.point_format < 128,
        ensures
            final(out)@ == old(out)@ + layout_bytes(self@),
    {
        reveal(layout_bytes);
        push_u16(out, self.header_size);
        push_u32(out, self.offset_to_point_data);
        push_u32(out, self.vlr_count);
        out.push(
            if self.compressed {
                self.point_format + 128
            } else {
                self.point_format
            },
        );
        push_u16(out, self.point_record_length);
        push_u32(out, self.legacy_point_count);
        push_range(out, self.legacy_points_by_return.as_slice(), 0, 20);
        assert(self.legacy_points_by_return@.subrange(0, 20) =~= self.legacy_points_by_return@);
        assert(out@ =~= old(out)@ + layout_bytes(self@));
    }

    /// Appends the fields that the versions 1.3 and 1.4 added.
    fn push_later(&self, out: &mut Vec<u8>)
        requires
            self.version_minor == 4 ==> self.points_by_return@.len() == 120,
        ensures
            final(out)@ == old(out)@ + later_bytes(self@),
    {
        reveal(later_bytes);
        if self.version_minor >= 3 {
            push_u64(out, self.waveform_start);
        }
        if self.version_minor >= 4 {
            push_u64(out, self.first_evlr);
            push_u32(out, self.evlr_count);
            push_u64(out, self.extended_point_count);
            push_range(out, self.points_by_return.as_slice(), 0, self.points_by_return.len());
            assert(self.points_by_return@.subrange(0, self.points_by_return@.len() as int)
                =~= self.points_by_return@);
        }
        assert(out@ =~= old(out)@ + later_bytes(self@));
    }

    /// Appends the header's bytes, where the header is one that a file can
    /// have; fails with `MalformedHeader`, and appends nothing, where it is
    /// not.
    pub fn write(&self, out: &mut Vec<u8>) -> (r: Result<(), LasError>)
        ensures
            self@.wf() ==> r is Ok && final(out)@ == old(out)@ + self@.bytes(),
            !self@.wf() ==> r == Err::<(), LasError>(LasError::MalformedHeader) && final(out)@
                == old(out)@,
    {
        if !self.is_valid() {
            return Err(LasError::MalformedHeader);
        }
        let t = &self.transform;
        let x = &self.bounds;
        self.push_ident(out);
        self.push_naming(out);
        self.push_layout(out);
        push_six(out, t.x_scale, t.y_scale, t.z_scale, t.x_offset, t.y_offset, t.z_offset);
        push_six(out, x.max_x, x.min_x, x.max_y, x.min_y, x.max_z, x.min_z);
        self.push_later(out);
        push_range(out, self.extension.as_slice(), 0, self.extension.len());
        assert(self.extension@.subrange(0, self.extension@.len() as int) =~= self.extension@);
        assert(out@ =~= old(out)@ + self@.bytes());
        Ok(())
    }

    /// The header's bytes, where the header is one that a file can have;
    /// fails with `MalformedHeader` where it is not.
    pub fn serialize(&self) -> (r: Result<Vec<u8>, LasError>)
        ensures
            self@.wf() ==> (r matches Ok(bytes) && bytes@ == self@.bytes()),
            !self@.wf() ==> (r matches Err(e) && e == LasError::MalformedHeader),
    {
        let mut out: Vec<u8> = Vec::new();
        match self.write(&mut out) {
            Ok(()) => {
                assert(out@ =~= self@.bytes());
                Ok(out)
            },
            Err(e) => Err(e),
        }
    }
}

} // verus!
