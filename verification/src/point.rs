//! Point records: the eleven fixed layouts, formats 0 to 10, how each is
//! read from bytes and written to them, and what each lets one ask for.

use vstd::prelude::*;
use crate::bytes::{
    from_i16, from_i32, from_i8, i16_of, i32_of, i8_of, lemma_join, lemma_signed_round_trip,
    lemma_u16_at,
    lemma_u16_bytes_of_read, lemma_u32_at, lemma_u32_bytes_of_read, lemma_u64_at,
    lemma_u64_bytes_of_read, lemma_unsigned_round_trip, push_u16, push_u32, push_u64, read_u16,
    read_u32, read_u64, to_i16, to_i32, to_i8, u16_at, u16_bytes, u16_of, u32_at, u32_bytes,
    u32_of, u64_at, u64_bytes, u8_of,
};
use crate::error::LasError;

verus! {

/// The fields that the formats 0 to 5 share.
#[derive(Clone, Copy, Debug, PartialEq, Eq, Structural)]
pub struct Core {
    pub x: i32,
    pub y: i32,
    pub z: i32,
    pub intensity: u16,
    /// Return number (bits 0 to 2), number of returns (bits 3 to 5), scan
    /// direction (bit 6) and edge of flight line (bit 7).
    pub return_byte: u8,
    /// Classification (bits 0 to 4) and the flags synthetic (bit 5),
    /// key-point (bit 6) and withheld (bit 7).
    pub class_byte: u8,
    pub scan_angle_rank: i8,
    pub user_data: u8,
    pub point_source_id: u16,
}

/// The fields that the formats 6 to 10 share.
#[derive(Clone, Copy, Debug, PartialEq, Eq, Structural)]
pub struct ExtendedCore {
    pub x: i32,
    pub y: i32,
    pub z: i32,
    pub intensity: u16,
    /// Return number (bits 0 to 3) and number of returns (bits 4 to 7).
    pub return_byte: u8,
    /// The flags synthetic (bit 0), key-point (bit 1), withheld (bit 2) and
    /// overlap (bit 3), the scanner channel (bits 4 and 5), scan direction
    /// (bit 6) and edge of flight line (bit 7).
    pub flag_byte: u8,
    pub classification: u8,
    pub user_data: u8,
    pub scan_angle: i16,
    pub point_source_id: u16,
    /// The GPS time, as the 64 bits of an IEEE 754 number.
    pub gps_time: u64,
}

/// A colour.
#[derive(Clone, Copy, Debug, PartialEq, Eq, Structural)]
pub struct Rgb {
    pub red: u16,
    pub green: u16,
    pub blue: u16,
}

/// Where the waveform of a point lies in the waveform data. The last four
/// fields are each the 32 bits of an IEEE 754 number.
#[derive(Clone, Copy, Debug, PartialEq, Eq, Structural)]
pub struct WavePacket {
    pub descriptor_index: u8,
    pub byte_offset: u64,
    pub packet_size: u32,
    pub return_point_location: u32,
    pub dx: u32,
    pub dy: u32,
    pub dz: u32,
}

/// A point record. A GPS time is the 64 bits of an IEEE 754 number.
#[derive(Clone, Copy, Debug, PartialEq, Eq, Structural)]
pub enum PointRecord {
    Format0 { core: Core },
    Format1 { core: Core, gps_time: u64 },
    Format2 { core: Core, color: Rgb },
    Format3 { core: Core, gps_time: u64, color: Rgb },
    Format4 { core: Core, gps_time: u64, wave: WavePacket },
    Format5 { core: Core, gps_time: u64, color: Rgb, wave: WavePacket },
    Format6 { core: ExtendedCore },
    Format7 { core: ExtendedCore, color: Rgb },
    Format8 { core: ExtendedCore, color: Rgb, nir: u16 },
    Format9 { core: ExtendedCore, wave: WavePacket },
    Format10 { core: ExtendedCore, color: Rgb, nir: u16, wave: WavePacket },
}

/// The highest format code.
pub const MAX_FORMAT: u8 = 10;

/// The number of bytes that a record of the given format has, for the
/// formats 0 to 10.
pub open spec fn record_length(format: u8) -> nat {
    match format {
        0 => 20,
        1 => 28,
        2 => 26,
        3 => 34,
        4 => 57,
        5 => 63,
        6 => 30,
        7 => 36,
        8 => 38,
        9 => 59,
        _ => 67,
    }
}

/// Whether records of the format carry a GPS time.
pub open spec fn format_has_gps_time(format: u8) -> bool {
    format == 1 || 3 <= format <= 10
}

/// Whether records of the format carry a colour.
pub open spec fn format_has_color(format: u8) -> bool {
    format == 2 || format == 3 || format == 5 || format == 7 || format == 8 || format == 10
}

/// Whether records of the format carry a near-infrared value.
pub open spec fn format_has_nir(format: u8) -> bool {
    format == 8 || format == 10
}

/// Whether records of the format point into the waveform data.
pub open spec fn format_has_wave_packet(format: u8) -> bool {
    format == 4 || format == 5 || format == 9 || format == 10
}

/// Whether the format has the wider classification and flags of the formats
/// 6 to 10.
pub open spec fn format_is_extended(format: u8) -> bool {
    6 <= format <= 10
}

/// The shared fields of the formats 0 to 5, read from the first 20 bytes.
pub open spec fn core_at(b: Seq<u8>) -> Core {
    Core {
        x: i32_of(u32_at(b, 0)),
        y: i32_of(u32_at(b, 4)),
        z: i32_of(u32_at(b, 8)),
        intensity: u16_at(b, 12),
        return_byte: b[14],
        class_byte: b[15],
        scan_angle_rank: i8_of(b[16]),
        user_data: b[17],
        point_source_id: u16_at(b, 18),
    }
}

/// The shared fields of the formats 6 to 10, read from the first 30 bytes.
pub open spec fn extended_core_at(b: Seq<u8>) -> ExtendedCore {
    ExtendedCore {
        x: i32_of(u32_at(b, 0)),
        y: i32_of(u32_at(b, 4)),
        z: i32_of(u32_at(b, 8)),
        intensity: u16_at(b, 12),
        return_byte: b[14],
        flag_byte: b[15],
        classification: b[16],
        user_data: b[17],
        scan_angle: i16_of(u16_at(b, 18)),
        point_source_id: u16_at(b, 20),
        gps_time: u64_at(b, 22),
    }
}

/// The colour stored in the 6 bytes at `at`.
pub open spec fn rgb_at(b: Seq<u8>, at: int) -> Rgb {
    Rgb { red: u16_at(b, at), green: u16_at(b, at + 2), blue: u16_at(b, at + 4) }
}

/// The waveform packet reference stored in the 29 bytes at `at`.
pub open spec fn wave_at(b: Seq<u8>, at: int) -> WavePacket {
    WavePacket {
        descriptor_index: b[at],
        byte_offset: u64_at(b, at + 1),
        packet_size: u32_at(b, at + 9),
        return_point_location: u32_at(b, at + 13),
        dx: u32_at(b, at + 17),
        dy: u32_at(b, at + 21),
        dz: u32_at(b, at + 25),
    }
}

/// The record of the given format that the bytes `b` hold, for the formats
/// 0 to 10 and at least `record_length(format)` bytes.
pub open spec fn record_at(format: u8, b: Seq<u8>) -> PointRecord {
    match format {
        0 => PointRecord::Format0 { core: core_at(b) },
        1 => PointRecord::Format1 { core: core_at(b), gps_time: u64_at(b, 20) },
        2 => PointRecord::Format2 { core: core_at(b), color: rgb_at(b, 20) },
        3 => PointRecord::Format3 {
            core: core_at(b),
            gps_time: u64_at(b, 20),
            color: rgb_at(b, 28),
        },
        4 => PointRecord::Format4 {
            core: core_at(b),
            gps_time: u64_at(b, 20),
            wave: wave_at(b, 28),
        },
        5 => PointRecord::Format5 {
            core: core_at(b),
            gps_time: u64_at(b, 20),
            color: rgb_at(b, 28),
            wave: wave_at(b, 34),
        },
        6 => PointRecord::Format6 { core: extended_core_at(b) },
        7 => PointRecord::Format7 { core: extended_core_at(b), color: rgb_at(b, 30) },
        8 => PointRecord::Format8 {
            core: extended_core_at(b),
            color: rgb_at(b, 30),
            nir: u16_at(b, 36),
        },
        9 => PointRecord::Format9 { core: extended_core_at(b), wave: wave_at(b, 30) },
        _ => PointRecord::Format10 {
            core: extended_core_at(b),
            color: rgb_at(b, 30),
            nir: u16_at(b, 36),
            wave: wave_at(b, 38),
        },
    }
}

/// The 20 bytes of the shared fields of the formats 0 to 5.
#[verifier::opaque]
pub open spec fn core_bytes(c: Core) -> Seq<u8> {
    u32_bytes(u32_of(c.x)) + u32_bytes(u32_of(c.y)) + u32_bytes(u32_of(c.z)) + u16_bytes(
        c.intensity,
    ) + seq![c.return_byte, c.class_byte, u8_of(c.scan_angle_rank), c.user_data] + u16_bytes(
        c.point_source_id,
    )
}

/// The 30 bytes of the shared fields of the formats 6 to 10.
#[verifier::opaque]
pub open spec fn extended_core_bytes(c: ExtendedCore) -> Seq<u8> {
    u32_bytes(u32_of(c.x)) + u32_bytes(u32_of(c.y)) + u32_bytes(u32_of(c.z)) + u16_bytes(
        c.intensity,
    ) + seq![c.return_byte, c.flag_byte, c.classification, c.user_data] + u16_bytes(
        u16_of(c.scan_angle),
    ) + u16_bytes(c.point_source_id) + u64_bytes(c.gps_time)
}

/// The 6 bytes of a colour.
#[verifier::opaque]
pub open spec fn rgb_bytes(c: Rgb) -> Seq<u8> {
    u16_bytes(c.red) + u16_bytes(c.green) + u16_bytes(c.blue)
}

/// The 29 bytes of a waveform packet reference.
#[verifier::opaque]
pub open spec fn wave_bytes(w: WavePacket) -> Seq<u8> {
    seq![w.descriptor_index] + u64_bytes(w.byte_offset) + u32_bytes(w.packet_size) + u32_bytes(
        w.return_point_location,
    ) + u32_bytes(w.dx) + u32_bytes(w.dy) + u32_bytes(w.dz)
}

/// The bytes of a record, in the layout of its format.
pub open spec fn record_bytes(r: PointRecord) -> Seq<u8> {
    match r {
        PointRecord::Format0 { core } => core_bytes(core),
        PointRecord::Format1 { core, gps_time } => core_bytes(core) + u64_bytes(gps_time),
        PointRecord::Format2 { core, color } => core_bytes(core) + rgb_bytes(color),
        PointRecord::Format3 { core, gps_time, color } => core_bytes(core) + u64_bytes(gps_time)
            + rgb_bytes(color),
        PointRecord::Format4 { core, gps_time, wave } => core_bytes(core) + u64_bytes(gps_time)
            + wave_bytes(wave),
        PointRecord::Format5 { core, gps_time, color, wave } => core_bytes(core) + u64_bytes(
            gps_time,
        ) + rgb_bytes(color) + wave_bytes(wave),
        PointRecord::Format6 { core } => extended_core_bytes(core),
        PointRecord::Format7 { core, color } => extended_core_bytes(core) + rgb_bytes(color),
        PointRecord::Format8 { core, color, nir } => extended_core_bytes(core) + rgb_bytes(color)
            + u16_bytes(nir),
        PointRecord::Format9 { core, wave } => extended_core_bytes(core) + wave_bytes(wave),
        PointRecord::Format10 { core, color, nir, wave } => extended_core_bytes(core) + rgb_bytes(
            color,
        ) + u16_bytes(nir) + wave_bytes(wave),
    }
}

impl PointRecord {
    /// The code of the record's format.
    pub open spec fn format_code(self) -> u8 {
        match self {
            PointRecord::Format0 { .. } => 0,
            PointRecord::Format1 { .. } => 1,
            PointRecord::Format2 { .. } => 2,
            PointRecord::Format3 { .. } => 3,
            PointRecord::Format4 { .. } => 4,
            PointRecord::Format5 { .. } => 5,
            PointRecord::Format6 { .. } => 6,
            PointRecord::Format7 { .. } => 7,
            PointRecord::Format8 { .. } => 8,
            PointRecord::Format9 { .. } => 9,
            PointRecord::Format10 { .. } => 10,
        }
    }
}

/// The shared fields are read back from their bytes, wherever these stand
/// at the start of `b`.
pub proof fn lemma_core_at(b: Seq<u8>, c: Core)
    requires
        b.len() >= 20,
        b.subrange(0, 20) == core_bytes(c),
    ensures
        core_at(b) == c,
{
    reveal(core_bytes);
    let s = core_bytes(c);
    assert(s.len() == 20);
    assert(b.subrange(0, 4) =~= s.subrange(0, 4));
    assert(s.subrange(0, 4) =~= u32_bytes(u32_of(c.x)));
    assert(b.subrange(4, 8) =~= s.subrange(4, 8));
    assert(s.subrange(4, 8) =~= u32_bytes(u32_of(c.y)));
    assert(b.subrange(8, 12) =~= s.subrange(8, 12));
    assert(s.subrange(8, 12) =~= u32_bytes(u32_of(c.z)));
    assert(b.subrange(12, 14) =~= s.subrange(12, 14));
    assert(s.subrange(12, 14) =~= u16_bytes(c.intensity));
    assert(b.subrange(18, 20) =~= s.subrange(18, 20));
    assert(s.subrange(18, 20) =~= u16_bytes(c.point_source_id));
    lemma_u32_at(b, 0, u32_of(c.x));
    lemma_u32_at(b, 4, u32_of(c.y));
    lemma_u32_at(b, 8, u32_of(c.z));
    lemma_u16_at(b, 12, c.intensity);
    lemma_u16_at(b, 18, c.point_source_id);
    lemma_signed_round_trip(c.scan_angle_rank, 0, c.x);
    lemma_signed_round_trip(0, 0, c.y);
    lemma_signed_round_trip(0, 0, c.z);
    assert(b[14] == b.subrange(0, 20)[14]);
    assert(b[15] == b.subrange(0, 20)[15]);
    assert(b[16] == b.subrange(0, 20)[16]);
    assert(b[17] == b.subrange(0, 20)[17]);
    assert(s[14] == c.return_byte && s[15] == c.class_byte && s[16] == u8_of(c.scan_angle_rank)
        && s[17] == c.user_data);
}

/// The shared fields are read back from their bytes, wherever these stand
/// at the start of `b`.
pub proof fn lemma_extended_core_at(b: Seq<u8>, c: ExtendedCore)
    requires
        b.len() >= 30,
        b.subrange(0, 30) == extended_core_bytes(c),
    ensures
        extended_core_at(b) == c,
{
    reveal(extended_core_bytes);
    let s = extended_core_bytes(c);
    assert(u64_bytes(c.gps_time).len() == 8);
    assert(s.len() == 30);
    assert(b.subrange(0, 4) =~= s.subrange(0, 4));
    assert(s.subrange(0, 4) =~= u32_bytes(u32_of(c.x)));
    assert(b.subrange(4, 8) =~= s.subrange(4, 8));
    assert(s.subrange(4, 8) =~= u32_bytes(u32_of(c.y)));
    assert(b.subrange(8, 12) =~= s.subrange(8, 12));
    assert(s.subrange(8, 12) =~= u32_bytes(u32_of(c.z)));
    assert(b.subrange(12, 14) =~= s.subrange(12, 14));
    assert(s.subrange(12, 14) =~= u16_bytes(c.intensity));
    assert(b.subrange(18, 20) =~= s.subrange(18, 20));
    assert(s.subrange(18, 20) =~= u16_bytes(u16_of(c.scan_angle)));
    assert(b.subrange(20, 22) =~= s.subrange(20, 22));
    assert(s.subrange(20, 22) =~= u16_bytes(c.point_source_id));
    assert(b.subrange(22, 30) =~= s.subrange(22, 30));
    assert(s.subrange(22, 30) =~= u64_bytes(c.gps_time));
    lemma_u32_at(b, 0, u32_of(c.x));
    lemma_u32_at(b, 4, u32_of(c.y));
    lemma_u32_at(b, 8, u32_of(c.z));
    lemma_u16_at(b, 12, c.intensity);
    lemma_u16_at(b, 18, u16_of(c.scan_angle));
    lemma_u16_at(b, 20, c.point_source_id);
    lemma_u64_at(b, 22, c.gps_time);
    lemma_signed_round_trip(0, c.scan_angle, c.x);
    lemma_signed_round_trip(0, 0, c.y);
    lemma_signed_round_trip(0, 0, c.z);
    assert(b[14] == b.subrange(0, 30)[14]);
    assert(b[15] == b.subrange(0, 30)[15]);
    assert(b[16] == b.subrange(0, 30)[16]);
    assert(b[17] == b.subrange(0, 30)[17]);
    assert(s[14] == c.return_byte && s[15] == c.flag_byte && s[16] == c.classification && s[17]
        == c.user_data);
}

/// A colour is read back from its bytes, wherever these stand in `b`.
pub proof fn lemma_rgb_at(b: Seq<u8>, at: int, c: Rgb)
    requires
        0 <= at,
        at + 6 <= b.len(),
        b.subrange(at, at + 6) == rgb_bytes(c),
    ensures
        rgb_at(b, at) == c,
{
    reveal(rgb_bytes);
    let s = rgb_bytes(c);
    assert(b.subrange(at, at + 2) =~= s.subrange(0, 2));
    assert(s.subrange(0, 2) =~= u16_bytes(c.red));
    assert(b.subrange(at + 2, at + 4) =~= s.subrange(2, 4));
    assert(s.subrange(2, 4) =~= u16_bytes(c.green));
    assert(b.subrange(at + 4, at + 6) =~= s.subrange(4, 6));
    assert(s.subrange(4, 6) =~= u16_bytes(c.blue));
    lemma_u16_at(b, at, c.red);
    lemma_u16_at(b, at + 2, c.green);
    lemma_u16_at(b, at + 4, c.blue);
}

/// A waveform packet reference is read back from its bytes, wherever these
/// stand in `b`.
pub proof fn lemma_wave_at(b: Seq<u8>, at: int, w: WavePacket)
    requires
        0 <= at,
        at + 29 <= b.len(),
        b.subrange(at, at + 29) == wave_bytes(w),
    ensures
        wave_at(b, at) == w,
{
    reveal(wave_bytes);
    let s = wave_bytes(w);
    assert(u64_bytes(w.byte_offset).len() == 8);
    assert(s.len() == 29);
    assert(b[at] == b.subrange(at, at + 29)[0]);
    assert(s[0] == w.descriptor_index);
    assert(b.subrange(at + 1, at + 9) =~= s.subrange(1, 9));
    assert(s.subrange(1, 9) =~= u64_bytes(w.byte_offset));
    assert(b.subrange(at + 9, at + 13) =~= s.subrange(9, 13));
    assert(s.subrange(9, 13) =~= u32_bytes(w.packet_size));
    assert(b.subrange(at + 13, at + 17) =~= s.subrange(13, 17));
    assert(s.subrange(13, 17) =~= u32_bytes(w.return_point_location));
    assert(b.subrange(at + 17, at + 21) =~= s.subrange(17, 21));
    assert(s.subrange(17, 21) =~= u32_bytes(w.dx));
    assert(b.subrange(at + 21, at + 25) =~= s.subrange(21, 25));
    assert(s.subrange(21, 25) =~= u32_bytes(w.dy));
    assert(b.subrange(at + 25, at + 29) =~= s.subrange(25, 29));
    assert(s.subrange(25, 29) =~= u32_bytes(w.dz));
    lemma_u64_at(b, at + 1, w.byte_offset);
    lemma_u32_at(b, at + 9, w.packet_size);
    lemma_u32_at(b, at + 13, w.return_point_location);
    lemma_u32_at(b, at + 17, w.dx);
    lemma_u32_at(b, at + 21, w.dy);
    lemma_u32_at(b, at + 25, w.dz);
}

/// The lengths of the parts of a record.
pub proof fn lemma_part_lengths()
    ensures
        forall|c: Core| #[trigger] core_bytes(c).len() == 20,
        forall|e: ExtendedCore| #[trigger] extended_core_bytes(e).len() == 30,
        forall|c: Rgb| #[trigger] rgb_bytes(c).len() == 6,
        forall|w: WavePacket| #[trigger] wave_bytes(w).len() == 29,
        forall|t: u64| #[trigger] u64_bytes(t).len() == 8,
        forall|t: u16| #[trigger] u16_bytes(t).len() == 2,
{
    reveal(core_bytes);
    reveal(extended_core_bytes);
    reveal(rgb_bytes);
    reveal(wave_bytes);
    assert forall|e: ExtendedCore| #[trigger] extended_core_bytes(e).len() == 30 by {
        assert(u64_bytes(e.gps_time).len() == 8);
    }
    assert forall|w: WavePacket| #[trigger] wave_bytes(w).len() == 29 by {
        assert(u64_bytes(w.byte_offset).len() == 8);
    }
}

/// Writing the shared fields that were read gives the bytes that were read.
pub proof fn lemma_core_bytes_of_read(b: Seq<u8>)
    requires
        b.len() >= 20,
    ensures
        core_bytes(core_at(b)) == b.subrange(0, 20),
{
    reveal(core_bytes);
    lemma_u32_bytes_of_read(b, 0);
    lemma_u32_bytes_of_read(b, 4);
    lemma_u32_bytes_of_read(b, 8);
    lemma_u16_bytes_of_read(b, 12);
    lemma_u16_bytes_of_read(b, 18);
    lemma_unsigned_round_trip(b[16], 0, u32_at(b, 0));
    lemma_unsigned_round_trip(0, 0, u32_at(b, 4));
    lemma_unsigned_round_trip(0, 0, u32_at(b, 8));
    assert(seq![b[14], b[15], b[16], b[17]] =~= b.subrange(14, 18));
    lemma_join(b, 0, 4, 8);
    lemma_join(b, 0, 8, 12);
    lemma_join(b, 0, 12, 14);
    lemma_join(b, 0, 14, 18);
    lemma_join(b, 0, 18, 20);
}

/// Writing the shared fields that were read gives the bytes that were read.
pub proof fn lemma_extended_core_bytes_of_read(b: Seq<u8>)
    requires
        b.len() >= 30,
    ensures
        extended_core_bytes(extended_core_at(b)) == b.subrange(0, 30),
{
    reveal(extended_core_bytes);
    lemma_u32_bytes_of_read(b, 0);
    lemma_u32_bytes_of_read(b, 4);
    lemma_u32_bytes_of_read(b, 8);
    lemma_u16_bytes_of_read(b, 12);
    lemma_u16_bytes_of_read(b, 18);
    lemma_u16_bytes_of_read(b, 20);
    lemma_u64_bytes_of_read(b, 22);
    lemma_unsigned_round_trip(0, u16_at(b, 18), u32_at(b, 0));
    lemma_unsigned_round_trip(0, 0, u32_at(b, 4));
    lemma_unsigned_round_trip(0, 0, u32_at(b, 8));
    assert(seq![b[14], b[15], b[16], b[17]] =~= b.subrange(14, 18));
    lemma_join(b, 0, 4, 8);
    lemma_join(b, 0, 8, 12);
    lemma_join(b, 0, 12, 14);
    lemma_join(b, 0, 14, 18);
    lemma_join(b, 0, 18, 20);
    lemma_join(b, 0, 20, 22);
    lemma_join(b, 0, 22, 30);
}

/// Writing the colour that was read gives the bytes that were read.
pub proof fn lemma_rgb_bytes_of_read(b: Seq<u8>, at: int)
    requires
        0 <= at,
        at + 6 <= b.len(),
    ensures
        rgb_bytes(rgb_at(b, at)) == b.subrange(at, at + 6),
{
    reveal(rgb_bytes);
    lemma_u16_bytes_of_read(b, at);
    lemma_u16_bytes_of_read(b, at + 2);
    lemma_u16_bytes_of_read(b, at + 4);
    lemma_join(b, at, at + 2, at + 4);
    lemma_join(b, at, at + 4, at + 6);
}

/// Writing the waveform packet reference that was read gives the bytes that
/// were read.
pub proof fn lemma_wave_bytes_of_read(b: Seq<u8>, at: int)
    requires
        0 <= at,
        at + 29 <= b.len(),
    ensures
        wave_bytes(wave_at(b, at)) == b.subrange(at, at + 29),
{
    reveal(wave_bytes);
    lemma_u64_bytes_of_read(b, at + 1);
    lemma_u32_bytes_of_read(b, at + 9);
    lemma_u32_bytes_of_read(b, at + 13);
    lemma_u32_bytes_of_read(b, at + 17);
    lemma_u32_bytes_of_read(b, at + 21);
    lemma_u32_bytes_of_read(b, at + 25);
    assert(seq![b[at]] =~= b.subrange(at, at + 1));
    lemma_join(b, at, at + 1, at + 9);
    lemma_join(b, at, at + 9, at + 13);
    lemma_join(b, at, at + 13, at + 17);
    lemma_join(b, at, at + 17, at + 21);
    lemma_join(b, at, at + 21, at + 25);
    lemma_join(b, at, at + 25, at + 29);
}

/// A record's bytes are as many as its format has.
pub proof fn lemma_record_bytes_len(r: PointRecord)
    ensures
        record_bytes(r).len() == record_length(r.format_code()),
        r.format_code() <= MAX_FORMAT,
{
    lemma_part_lengths();
}

/// A record is read back from its bytes, whatever follows them: reading
/// undoes writing.
pub proof fn lemma_read_of_written(r: PointRecord, rest: Seq<u8>)
    ensures
        record_at(r.format_code(), record_bytes(r) + rest) == r,
{
    lemma_part_lengths();
    let b = record_bytes(r) + rest;
    match r {
        PointRecord::Format0 { core } => {
            assert(b.subrange(0, 20) =~= core_bytes(core));
            lemma_core_at(b, core);
        },
        PointRecord::Format1 { core, gps_time } => {
            assert(b.subrange(0, 20) =~= core_bytes(core));
            assert(b.subrange(20, 28) =~= u64_bytes(gps_time));
            lemma_core_at(b, core);
            lemma_u64_at(b, 20, gps_time);
        },
        PointRecord::Format2 { core, color } => {
            assert(b.subrange(0, 20) =~= core_bytes(core));
            assert(b.subrange(20, 26) =~= rgb_bytes(color));
            lemma_core_at(b, core);
            lemma_rgb_at(b, 20, color);
        },
        PointRecord::Format3 { core, gps_time, color } => {
            assert(b.subrange(0, 20) =~= core_bytes(core));
            assert(b.subrange(20, 28) =~= u64_bytes(gps_time));
            assert(b.subrange(28, 34) =~= rgb_bytes(color));
            lemma_core_at(b, core);
            lemma_u64_at(b, 20, gps_time);
            lemma_rgb_at(b, 28, color);
        },
        PointRecord::Format4 { core, gps_time, wave } => {
            assert(b.subrange(0, 20) =~= core_bytes(core));
            assert(b.subrange(20, 28) =~= u64_bytes(gps_time));
            assert(b.subrange(28, 57) =~= wave_bytes(wave));
            lemma_core_at(b, core);
            lemma_u64_at(b, 20, gps_time);
            lemma_wave_at(b, 28, wave);
        },
        PointRecord::Format5 { core, gps_time, color, wave } => {
            assert(b.subrange(0, 20) =~= core_bytes(core));
            assert(b.subrange(20, 28) =~= u64_bytes(gps_time));
            assert(b.subrange(28, 34) =~= rgb_bytes(color));
            assert(b.subrange(34, 63) =~= wave_bytes(wave));
            lemma_core_at(b, core);
            lemma_u64_at(b, 20, gps_time);
            lemma_rgb_at(b, 28, color);
            lemma_wave_at(b, 34, wave);
        },
        PointRecord::Format6 { core } => {
            assert(b.subrange(0, 30) =~= extended_core_bytes(core));
            lemma_extended_core_at(b, core);
        },
        PointRecord::Format7 { core, color } => {
            assert(b.subrange(0, 30) =~= extended_core_bytes(core));
            assert(b.subrange(30, 36) =~= rgb_bytes(color));
            lemma_extended_core_at(b, core);
            lemma_rgb_at(b, 30, color);
        },
        PointRecord::Format8 { core, color, nir } => {
            assert(b.subrange(0, 30) =~= extended_core_bytes(core));
            assert(b.subrange(30, 36) =~= rgb_bytes(color));
            assert(b.subrange(36, 38) =~= u16_bytes(nir));
            lemma_extended_core_at(b, core);
            lemma_rgb_at(b, 30, color);
            lemma_u16_at(b, 36, nir);
        },
        PointRecord::Format9 { core, wave } => {
            assert(b.subrange(0, 30) =~= extended_core_bytes(core));
            assert(b.subrange(30, 59) =~= wave_bytes(wave));
            lemma_extended_core_at(b, core);
            lemma_wave_at(b, 30, wave);
        },
        PointRecord::Format10 { core, color, nir, wave } => {
            assert(b.subrange(0, 30) =~= extended_core_bytes(core));
            assert(b.subrange(30, 36) =~= rgb_bytes(color));
            assert(b.subrange(36, 38) =~= u16_bytes(nir));
            assert(b.subrange(38, 67) =~= wave_bytes(wave));
            lemma_extended_core_at(b, core);
            lemma_rgb_at(b, 30, color);
            lemma_u16_at(b, 36, nir);
            lemma_wave_at(b, 38, wave);
        },
    }
}

/// The record read from bytes has the format asked for, and writing it
/// gives the bytes it was read from: writing undoes reading.
pub proof fn lemma_written_of_read(format: u8, b: Seq<u8>)
    requires
        format <= MAX_FORMAT,
        b.len() >= record_length(format),
    ensures
        record_at(format, b).format_code() == format,
        record_bytes(record_at(format, b)) == b.subrange(0, record_length(format) as int),
{
    if format <= 5 {
        lemma_core_bytes_of_read(b);
    } else {
        lemma_extended_core_bytes_of_read(b);
    }
    if format == 1 {
        lemma_u64_bytes_of_read(b, 20);
        assert(b.subrange(0, 20) + b.subrange(20, 28) =~= b.subrange(0, 28));
    } else if format == 2 {
        lemma_rgb_bytes_of_read(b, 20);
        assert(b.subrange(0, 20) + b.subrange(20, 26) =~= b.subrange(0, 26));
    } else if format == 3 {
        lemma_u64_bytes_of_read(b, 20);
        lemma_rgb_bytes_of_read(b, 28);
        assert(b.subrange(0, 20) + b.subrange(20, 28) + b.subrange(28, 34) =~= b.subrange(0, 34));
    } else if format == 4 {
        lemma_u64_bytes_of_read(b, 20);
        lemma_wave_bytes_of_read(b, 28);
        assert(b.subrange(0, 20) + b.subrange(20, 28) + b.subrange(28, 57) =~= b.subrange(0, 57));
    } else if format == 5 {
        lemma_u64_bytes_of_read(b, 20);
        lemma_rgb_bytes_of_read(b, 28);
        lemma_wave_bytes_of_read(b, 34);
        assert(b.subrange(0, 20) + b.subrange(20, 28) + b.subrange(28, 34) + b.subrange(34, 63)
            =~= b.subrange(0, 63));
    } else if format == 7 {
        lemma_rgb_bytes_of_read(b, 30);
        assert(b.subrange(0, 30) + b.subrange(30, 36) =~= b.subrange(0, 36));
    } else if format == 8 {
        lemma_rgb_bytes_of_read(b, 30);
        lemma_u16_bytes_of_read(b, 36);
        assert(b.subrange(0, 30) + b.subrange(30, 36) + b.subrange(36, 38) =~= b.subrange(0, 38));
    } else if format == 9 {
        lemma_wave_bytes_of_read(b, 30);
        assert(b.subrange(0, 30) + b.subrange(30, 59) =~= b.subrange(0, 59));
    } else if format == 10 {
        lemma_rgb_bytes_of_read(b, 30);
        lemma_u16_bytes_of_read(b, 36);
        lemma_wave_bytes_of_read(b, 38);
        assert(b.subrange(0, 30) + b.subrange(30, 36) + b.subrange(36, 38) + b.subrange(38, 67)
            =~= b.subrange(0, 67));
    }
}

/// Reads the shared fields of the formats 0 to 5.
fn read_core(b: &[u8]) -> (c: Core)
    requires
        b.len() >= 20,
    ensures
        c == core_at(b@),
{
    Core {
        x: to_i32(read_u32(b, 0)),
        y: to_i32(read_u32(b, 4)),
        z: to_i32(read_u32(b, 8)),
        intensity: read_u16(b, 12),
        return_byte: b[14],
        class_byte: b[15],
        scan_angle_rank: to_i8(b[16]),
        user_data: b[17],
        point_source_id: read_u16(b, 18),
    }
}

/// Reads the shared fields of the formats 6 to 10.
fn read_extended_core(b: &[u8]) -> (c: ExtendedCore)
    requires
        b.len() >= 30,
    ensures
        c == extended_core_at(b@),
{
    ExtendedCore {
        x: to_i32(read_u32(b, 0)),
        y: to_i32(read_u32(b, 4)),
        z: to_i32(read_u32(b, 8)),
        intensity: read_u16(b, 12),
        return_byte: b[14],
        flag_byte: b[15],
        classification: b[16],
        user_data: b[17],
        scan_angle: to_i16(read_u16(b, 18)),
        point_source_id: read_u16(b, 20),
        gps_time: read_u64(b, 22),
    }
}

/// Reads the colour at `at`.
fn read_rgb(b: &[u8], at: usize) -> (c: Rgb)
    requires
        at + 6 <= b.len(),
    ensures
        c == rgb_at(b@, at as int),
{
    Rgb { red: read_u16(b, at), green: read_u16(b, at + 2), blue: read_u16(b, at + 4) }
}

/// Reads the waveform packet reference at `at`.
fn read_wave(b: &[u8], at: usize) -> (w: WavePacket)
    requires
        at + 29 <= b.len(),
    ensures
        w == wave_at(b@, at as int),
{
    WavePacket {
        descriptor_index: b[at],
        byte_offset: read_u64(b, at + 1),
        packet_size: read_u32(b, at + 9),
        return_point_location: read_u32(b, at + 13),
        dx: read_u32(b, at + 17),
        dy: read_u32(b, at + 21),
        dz: read_u32(b, at + 25),
    }
}

/// Appends the shared fields of the formats 0 to 5.
fn push_core(out: &mut Vec<u8>, c: &Core)
    ensures
        final(out)@ == old(out)@ + core_bytes(*c),
{
    reveal(core_bytes);
    push_u32(out, from_i32(c.x));
    push_u32(out, from_i32(c.y));
    push_u32(out, from_i32(c.z));
    push_u16(out, c.intensity);
    out.push(c.return_byte);
    out.push(c.class_byte);
    out.push(from_i8(c.scan_angle_rank));
    out.push(c.user_data);
    let ghost mid = out@;
    push_u16(out, c.point_source_id);
    assert(mid =~= old(out)@ + (u32_bytes(u32_of(c.x)) + u32_bytes(u32_of(c.y)) + u32_bytes(
        u32_of(c.z),
    ) + u16_bytes(c.intensity) + seq![
        c.return_byte,
        c.class_byte,
        u8_of(c.scan_angle_rank),
        c.user_data,
    ]));
    assert(out@ =~= old(out)@ + core_bytes(*c));
}

/// Appends the shared fields of the formats 6 to 10.
fn push_extended_core(out: &mut Vec<u8>, c: &ExtendedCore)
    ensures
        final(out)@ == old(out)@ + extended_core_bytes(*c),
{
    reveal(extended_core_bytes);
    push_u32(out, from_i32(c.x));
    push_u32(out, from_i32(c.y));
    push_u32(out, from_i32(c.z));
    push_u16(out, c.intensity);
    out.push(c.return_byte);
    out.push(c.flag_byte);
    out.push(c.classification);
    out.push(c.user_data);
    let ghost mid = out@;
    assert(mid =~= old(out)@ + (u32_bytes(u32_of(c.x)) + u32_bytes(u32_of(c.y)) + u32_bytes(
        u32_of(c.z),
    ) + u16_bytes(c.intensity) + seq![
        c.return_byte,
        c.flag_byte,
        c.classification,
        c.user_data,
    ]));
    push_u16(out, from_i16(c.scan_angle));
    push_u16(out, c.point_source_id);
    push_u64(out, c.gps_time);
    assert(out@ =~= old(out)@ + extended_core_bytes(*c));
}

/// Appends a colour.
fn push_rgb(out: &mut Vec<u8>, c: &Rgb)
    ensures
        final(out)@ == old(out)@ + rgb_bytes(*c),
{
    reveal(rgb_bytes);
    push_u16(out, c.red);
    push_u16(out, c.green);
    push_u16(out, c.blue);
    assert(out@ =~= old(out)@ + rgb_bytes(*c));
}

/// Appends a waveform packet reference.
fn push_wave(out: &mut Vec<u8>, w: &WavePacket)
    ensures
        final(out)@ == old(out)@ + wave_bytes(*w),
{
    reveal(wave_bytes);
    out.push(w.descriptor_index);
    push_u64(out, w.byte_offset);
    push_u32(out, w.packet_size);
    push_u32(out, w.return_point_location);
    push_u32(out, w.dx);
    push_u32(out, w.dy);
    push_u32(out, w.dz);
    assert(out@ =~= old(out)@ + wave_bytes(*w));
}

/// The number of bytes that a record of the given format has.
pub fn record_len(format: u8) -> (n: usize)
    requires
        format <= MAX_FORMAT,
    ensures
        n == record_length(format),
{
    match format {
        0 => 20,
        1 => 28,
        2 => 26,
        3 => 34,
        4 => 57,
        5 => 63,
        6 => 30,
        7 => 36,
        8 => 38,
        9 => 59,
        _ => 67,
    }
}

impl PointRecord {
    /// Reads a record of the given format from the start of `raw_bytes`.
    /// Fails with `UnsupportedFormat` for a code above 10, and with
    /// `TruncatedRecord` where the bytes are fewer than the format has;
    /// bytes beyond the record are left unread.
    pub fn decode(format_code: u8, raw_bytes: &[u8]) -> (r: Result<PointRecord, LasError>)
        ensures
            format_code > MAX_FORMAT ==> r == Err::<PointRecord, LasError>(
                LasError::UnsupportedFormat,
            ),
            format_code <= MAX_FORMAT && raw_bytes@.len() < record_length(format_code) ==> r
                == Err::<PointRecord, LasError>(LasError::TruncatedRecord),
            format_code <= MAX_FORMAT && raw_bytes@.len() >= record_length(format_code) ==> r
                == Ok::<PointRecord, LasError>(record_at(format_code, raw_bytes@)),
    {
        if format_code > MAX_FORMAT {
            return Err(LasError::UnsupportedFormat);
        }
        if raw_bytes.len() < record_len(format_code) {
            return Err(LasError::TruncatedRecord);
        }
        let b = raw_bytes;
        let r = match format_code {
            0 => PointRecord::Format0 { core: read_core(b) },
            1 => PointRecord::Format1 { core: read_core(b), gps_time: read_u64(b, 20) },
            2 => PointRecord::Format2 { core: read_core(b), color: read_rgb(b, 20) },
            3 => PointRecord::Format3 {
                core: read_core(b),
                gps_time: read_u64(b, 20),
                color: read_rgb(b, 28),
            },
            4 => PointRecord::Format4 {
                core: read_core(b),
                gps_time: read_u64(b, 20),
                wave: read_wave(b, 28),
            },
            5 => PointRecord::Format5 {
                core: read_core(b),
                gps_time: read_u64(b, 20),
                color: read_rgb(b, 28),
                wave: read_wave(b, 34),
            },
            6 => PointRecord::Format6 { core: read_extended_core(b) },
            7 => PointRecord::Format7 { core: read_extended_core(b), color: read_rgb(b, 30) },
            8 => PointRecord::Format8 {
                core: read_extended_core(b),
                color: read_rgb(b, 30),
                nir: read_u16(b, 36),
            },
            9 => PointRecord::Format9 { core: read_extended_core(b), wave: read_wave(b, 30) },
            _ => PointRecord::Format10 {
                core: read_extended_core(b),
                color: read_rgb(b, 30),
                nir: read_u16(b, 36),
                wave: read_wave(b, 38),
            },
        };
        Ok(r)
    }

    /// Appends the record's bytes, in the layout of its format.
    pub fn encode(&self, out: &mut Vec<u8>)
        ensures
            final(out)@ == old(out)@ + record_bytes(*self),
    {
        match self {
            PointRecord::Format0 { core } => {
                push_core(out, core);
            },
            PointRecord::Format1 { core, gps_time } => {
                push_core(out, core);
                push_u64(out, *gps_time);
            },
            PointRecord::Format2 { core, color } => {
                push_core(out, core);
                push_rgb(out, color);
            },
            PointRecord::Format3 { core, gps_time, color } => {
                push_core(out, core);
                push_u64(out, *gps_time);
                push_rgb(out, color);
            },
            PointRecord::Format4 { core, gps_time, wave } => {
                push_core(out, core);
                push_u64(out, *gps_time);
                push_wave(out, wave);
            },
            PointRecord::Format5 { core, gps_time, color, wave } => {
                push_core(out, core);
                push_u64(out, *gps_time);
                push_rgb(out, color);
                push_wave(out, wave);
            },
            PointRecord::Format6 { core } => {
                push_extended_core(out, core);
            },
            PointRecord::Format7 { core, color } => {
                push_extended_core(out, core);
                push_rgb(out, color);
            },
            PointRecord::Format8 { core, color, nir } => {
                push_extended_core(out, core);
                push_rgb(out, color);
                push_u16(out, *nir);
            },
            PointRecord::Format9 { core, wave } => {
                push_extended_core(out, core);
                push_wave(out, wave);
            },
            PointRecord::Format10 { core, color, nir, wave } => {
                push_extended_core(out, core);
                push_rgb(out, color);
                push_u16(out, *nir);
                push_wave(out, wave);
            },
        }
        assert(out@ =~= old(out)@ + record_bytes(*self));
    }

    /// The record's bytes, in the layout of its format.
    pub fn to_bytes(&self) -> (out: Vec<u8>)
        ensures
            out@ == record_bytes(*self),
    {
        let mut out: Vec<u8> = Vec::new();
        self.encode(&mut out);
        assert(out@ =~= record_bytes(*self));
        out
    }

    /// The code of the record's format.
    pub fn format(&self) -> (f: u8)
        ensures
            f == self.format_code(),
            f <= MAX_FORMAT,
    {
        match self {
            PointRecord::Format0 { .. } => 0,
            PointRecord::Format1 { .. } => 1,
            PointRecord::Format2 { .. } => 2,
            PointRecord::Format3 { .. } => 3,
            PointRecord::Format4 { .. } => 4,
            PointRecord::Format5 { .. } => 5,
            PointRecord::Format6 { .. } => 6,
            PointRecord::Format7 { .. } => 7,
            PointRecord::Format8 { .. } => 8,
            PointRecord::Format9 { .. } => 9,
            PointRecord::Format10 { .. } => 10,
        }
    }
}

} // verus!
