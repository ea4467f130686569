//! What a point record can be asked for. The fields that every format has
//! are answered for every record; a field that only some formats have is
//! answered with `FieldNotAvailable` by a record of another format.

use vstd::prelude::*;
use crate::error::LasError;
use crate::point::{
    format_has_color, format_has_gps_time, format_has_nir, format_has_wave_packet,
    format_is_extended, Core, ExtendedCore, PointRecord, Rgb, WavePacket,
};

verus! {

/// The shared fields of a record of the formats 0 to 5.
pub open spec fn core_of(r: PointRecord) -> Option<Core> {
    match r {
        PointRecord::Format0 { core } => Some(core),
        PointRecord::Format1 { core, .. } => Some(core),
        PointRecord::Format2 { core, .. } => Some(core),
        PointRecord::Format3 { core, .. } => Some(core),
        PointRecord::Format4 { core, .. } => Some(core),
        PointRecord::Format5 { core, .. } => Some(core),
        _ => None,
    }
}

/// The shared fields of a record of the formats 6 to 10.
pub open spec fn extended_core_of(r: PointRecord) -> Option<ExtendedCore> {
    match r {
        PointRecord::Format6 { core } => Some(core),
        PointRecord::Format7 { core, .. } => Some(core),
        PointRecord::Format8 { core, .. } => Some(core),
        PointRecord::Format9 { core, .. } => Some(core),
        PointRecord::Format10 { core, .. } => Some(core),
        _ => None,
    }
}

/// The stored x coordinate.
pub open spec fn x_of(r: PointRecord) -> i32 {
    match core_of(r) {
        Some(c) => c.x,
        None => extended_core_of(r).unwrap().x,
    }
}

/// The stored y coordinate.
pub open spec fn y_of(r: PointRecord) -> i32 {
    match core_of(r) {
        Some(c) => c.y,
        None => extended_core_of(r).unwrap().y,
    }
}

/// The stored z coordinate.
pub open spec fn z_of(r: PointRecord) -> i32 {
    match core_of(r) {
        Some(c) => c.z,
        None => extended_core_of(r).unwrap().z,
    }
}

/// The intensity of the return.
pub open spec fn intensity_of(r: PointRecord) -> u16 {
    match core_of(r) {
        Some(c) => c.intensity,
        None => extended_core_of(r).unwrap().intensity,
    }
}

/// The number of the return within its pulse: three bits in the formats 0
/// to 5, four in the formats 6 to 10.
pub open spec fn return_number_of(r: PointRecord) -> u8 {
    match core_of(r) {
        Some(c) => c.return_byte % 8,
        None => extended_core_of(r).unwrap().return_byte % 16,
    }
}

/// The number of returns of the pulse: three bits in the formats 0 to 5,
/// four in the formats 6 to 10.
pub open spec fn number_of_returns_of(r: PointRecord) -> u8 {
    match core_of(r) {
        Some(c) => c.return_byte / 8 % 8,
        None => extended_core_of(r).unwrap().return_byte / 16,
    }
}

/// The scan direction flag.
pub open spec fn scan_direction_of(r: PointRecord) -> bool {
    match core_of(r) {
        Some(c) => c.return_byte / 64 % 2 == 1,
        None => extended_core_of(r).unwrap().flag_byte / 64 % 2 == 1,
    }
}

/// The edge of flight line flag.
pub open spec fn edge_of_flight_line_of(r: PointRecord) -> bool {
    match core_of(r) {
        Some(c) => c.return_byte >= 128,
        None => extended_core_of(r).unwrap().flag_byte >= 128,
    }
}

/// The classification: five bits in the formats 0 to 5, a byte in the
/// formats 6 to 10.
pub open spec fn classification_of(r: PointRecord) -> u8 {
    match core_of(r) {
        Some(c) => c.class_byte % 32,
        None => extended_core_of(r).unwrap().classification,
    }
}

/// The flag that marks a point as synthetic.
pub open spec fn synthetic_of(r: PointRecord) -> bool {
    match core_of(r) {
        Some(c) => c.class_byte / 32 % 2 == 1,
        None => extended_core_of(r).unwrap().flag_byte % 2 == 1,
    }
}

/// The flag that marks a point as a model key-point.
pub open spec fn key_point_of(r: PointRecord) -> bool {
    match core_of(r) {
        Some(c) => c.class_byte / 64 % 2 == 1,
        None => extended_core_of(r).unwrap().flag_byte / 2 % 2 == 1,
    }
}

/// The flag that marks a point as withheld.
pub open spec fn withheld_of(r: PointRecord) -> bool {
    match core_of(r) {
        Some(c) => c.class_byte >= 128,
        None => extended_core_of(r).unwrap().flag_byte / 4 % 2 == 1,
    }
}

/// The user data byte.
pub open spec fn user_data_of(r: PointRecord) -> u8 {
    match core_of(r) {
        Some(c) => c.user_data,
        None => extended_core_of(r).unwrap().user_data,
    }
}

/// The point source ID.
pub open spec fn point_source_id_of(r: PointRecord) -> u16 {
    match core_of(r) {
        Some(c) => c.point_source_id,
        None => extended_core_of(r).unwrap().point_source_id,
    }
}

/// The overlap flag, which the formats 6 to 10 have.
pub open spec fn overlap_of(r: PointRecord) -> Option<bool> {
    match extended_core_of(r) {
        Some(c) => Some(c.flag_byte / 8 % 2 == 1),
        None => None,
    }
}

/// The scanner channel, 0 to 3, which the formats 6 to 10 have.
pub open spec fn scanner_channel_of(r: PointRecord) -> Option<u8> {
    match extended_core_of(r) {
        Some(c) => Some(c.flag_byte / 16 % 4),
        None => None,
    }
}

/// The scan angle in steps of 0.006 degrees, which the formats 6 to 10 have.
pub open spec fn scan_angle_of(r: PointRecord) -> Option<i16> {
    match extended_core_of(r) {
        Some(c) => Some(c.scan_angle),
        None => None,
    }
}

/// The scan angle rank in degrees, which the formats 0 to 5 have.
pub open spec fn scan_angle_rank_of(r: PointRecord) -> Option<i8> {
    match core_of(r) {
        Some(c) => Some(c.scan_angle_rank),
        None => None,
    }
}

/// The GPS time, as the 64 bits of an IEEE 754 number, where the format has
/// one.
pub open spec fn gps_time_of(r: PointRecord) -> Option<u64> {
    match r {
        PointRecord::Format1 { gps_time, .. } => Some(gps_time),
        PointRecord::Format3 { gps_time, .. } => Some(gps_time),
        PointRecord::Format4 { gps_time, .. } => Some(gps_time),
        PointRecord::Format5 { gps_time, .. } => Some(gps_time),
        PointRecord::Format0 { .. } => None,
        PointRecord::Format2 { .. } => None,
        _ => Some(extended_core_of(r).unwrap().gps_time),
    }
}

/// The colour, where the format has one.
pub open spec fn color_of(r: PointRecord) -> Option<Rgb> {
    match r {
        PointRecord::Format2 { color, .. } => Some(color),
        PointRecord::Format3 { color, .. } => Some(color),
        PointRecord::Format5 { color, .. } => Some(color),
        PointRecord::Format7 { color, .. } => Some(color),
        PointRecord::Format8 { color, .. } => Some(color),
        PointRecord::Format10 { color, .. } => Some(color),
        _ => None,
    }
}

/// The near-infrared value, where the format has one.
pub open spec fn nir_of(r: PointRecord) -> Option<u16> {
    match r {
        PointRecord::Format8 { nir, .. } => Some(nir),
        PointRecord::Format10 { nir, .. } => Some(nir),
        _ => None,
    }
}

/// The waveform packet reference, where the format has one.
pub open spec fn wave_packet_of(r: PointRecord) -> Option<WavePacket> {
    match r {
        PointRecord::Format4 { wave, .. } => Some(wave),
        PointRecord::Format5 { wave, .. } => Some(wave),
        PointRecord::Format9 { wave, .. } => Some(wave),
        PointRecord::Format10 { wave, .. } => Some(wave),
        _ => None,
    }
}

/// What asking for a field gives: its value where the record has the field,
/// `FieldNotAvailable` where it has not.
pub open spec fn answer<T>(field: Option<T>) -> Result<T, LasError> {
    match field {
        Some(v) => Ok(v),
        None => Err(LasError::FieldNotAvailable),
    }
}

/// Which fields a record has follows from its format alone, and for every
/// field and every format in the same way.
pub proof fn lemma_fields_follow_format(r: PointRecord)
    ensures
        gps_time_of(r) is Some <==> format_has_gps_time(r.format_code()),
        color_of(r) is Some <==> format_has_color(r.format_code()),
        nir_of(r) is Some <==> format_has_nir(r.format_code()),
        wave_packet_of(r) is Some <==> format_has_wave_packet(r.format_code()),
        overlap_of(r) is Some <==> format_is_extended(r.format_code()),
        scanner_channel_of(r) is Some <==> format_is_extended(r.format_code()),
        scan_angle_of(r) is Some <==> format_is_extended(r.format_code()),
        scan_angle_rank_of(r) is Some <==> !format_is_extended(r.format_code()),
        core_of(r) is Some <==> extended_core_of(r) is None,
{
}

impl PointRecord {
    /// The shared fields of a record of the formats 0 to 5.
    fn base_core(&self) -> (c: Option<Core>)
        ensures
            c == core_of(*self),
    {
        match self {
            PointRecord::Format0 { core } => Some(*core),
            PointRecord::Format1 { core, .. } => Some(*core),
            PointRecord::Format2 { core, .. } => Some(*core),
            PointRecord::Format3 { core, .. } => Some(*core),
            PointRecord::Format4 { core, .. } => Some(*core),
            PointRecord::Format5 { core, .. } => Some(*core),
            _ => None,
        }
    }

    /// The shared fields of a record of the formats 6 to 10; those of the
    /// format 6 with nothing in them for another record.
    fn extended_core(&self) -> (c: ExtendedCore)
        ensures
            extended_core_of(*self) is Some ==> c == extended_core_of(*self).unwrap(),
    {
        match self {
            PointRecord::Format6 { core } => *core,
            PointRecord::Format7 { core, .. } => *core,
            PointRecord::Format8 { core, .. } => *core,
            PointRecord::Format9 { core, .. } => *core,
            PointRecord::Format10 { core, .. } => *core,
            _ => ExtendedCore {
                x: 0,
                y: 0,
                z: 0,
                intensity: 0,
                return_byte: 0,
                flag_byte: 0,
                classification: 0,
                user_data: 0,
                scan_angle: 0,
                point_source_id: 0,
                gps_time: 0,
            },
        }
    }

    /// The stored x coordinate.
    pub fn x(&self) -> (v: i32)
        ensures
            v == x_of(*self),
    {
        match self.base_core() {
            Some(c) => c.x,
            None => self.extended_core().x,
        }
    }

    /// The stored y coordinate.
    pub fn y(&self) -> (v: i32)
        ensures
            v == y_of(*self),
    {
        match self.base_core() {
            Some(c) => c.y,
            None => self.extended_core().y,
        }
    }

    /// The stored z coordinate.
    pub fn z(&self) -> (v: i32)
        ensures
            v == z_of(*self),
    {
        match self.base_core() {
            Some(c) => c.z,
            None => self.extended_core().z,
        }
    }

    /// The intensity of the return.
    pub fn intensity(&self) -> (v: u16)
        ensures
            v == intensity_of(*self),
    {
        match self.base_core() {
            Some(c) => c.intensity,
            None => self.extended_core().intensity,
        }
    }

    /// The number of the return within its pulse.
    pub fn return_number(&self) -> (v: u8)
        ensures
            v == return_number_of(*self),
    {
        match self.base_core() {
            Some(c) => c.return_byte % 8,
            None => self.extended_core().return_byte % 16,
        }
    }

    /// The number of returns of the pulse.
    pub fn number_of_returns(&self) -> (v: u8)
        ensures
            v == number_of_returns_of(*self),
    {
        match self.base_core() {
            Some(c) => c.return_byte / 8 % 8,
            None => self.extended_core().return_byte / 16,
        }
    }

    /// The scan direction flag.
    pub fn scan_direction_flag(&self) -> (v: bool)
        ensures
            v == scan_direction_of(*self),
    {
        match self.base_core() {
            Some(c) => c.return_byte / 64 % 2 == 1,
            None => self.extended_core().flag_byte / 64 % 2 == 1,
        }
    }

    /// The edge of flight line flag.
    pub fn edge_of_flight_line(&self) -> (v: bool)
        ensures
            v == edge_of_flight_line_of(*self),
    {
        match self.base_core() {
            Some(c) => c.return_byte >= 128,
            None => self.extended_core().flag_byte >= 128,
        }
    }

    /// The classification.
    pub fn classification(&self) -> (v: u8)
        ensures
            v == classification_of(*self),
    {
        match self.base_core() {
            Some(c) => c.class_byte % 32,
            None => self.extended_core().classification,
        }
    }

    /// Whether the point is marked as synthetic.
    pub fn is_synthetic(&self) -> (v: bool)
        ensures
            v == synthetic_of(*self),
    {
        match self.base_core() {
            Some(c) => c.class_byte / 32 % 2 == 1,
            None => self.extended_core().flag_byte % 2 == 1,
        }
    }

    /// Whether the point is marked as a model key-point.
    pub fn is_key_point(&self) -> (v: bool)
        ensures
            v == key_point_of(*self),
    {
        match self.base_core() {
            Some(c) => c.class_byte / 64 % 2 == 1,
            None => self.extended_core().flag_byte / 2 % 2 == 1,
        }
    }

    /// Whether the point is marked as withheld.
    pub fn is_withheld(&self) -> (v: bool)
        ensures
            v == withheld_of(*self),
    {
        match self.base_core() {
            Some(c) => c.class_byte >= 128,
            None => self.extended_core().flag_byte / 4 % 2 == 1,
        }
    }

    /// The user data byte.
    pub fn user_data(&self) -> (v: u8)
        ensures
            v == user_data_of(*self),
    {
        match self.base_core() {
            Some(c) => c.user_data,
            None => self.extended_core().user_data,
        }
    }

    /// The point source ID.
    pub fn point_source_id(&self) -> (v: u16)
        ensures
            v == point_source_id_of(*self),
    {
        match self.base_core() {
            Some(c) => c.point_source_id,
            None => self.extended_core().point_source_id,
        }
    }

    /// Whether the record carries a GPS time.
    pub fn has_gps_time(&self) -> (b: bool)
        ensures
            b == format_has_gps_time(self.format_code()),
            b == gps_time_of(*self) is Some,
    {
        let f = self.format();
        f == 1 || f >= 3
    }

    /// Whether the record carries a colour.
    pub fn has_color(&self) -> (b: bool)
        ensures
            b == format_has_color(self.format_code()),
            b == color_of(*self) is Some,
    {
        let f = self.format();
        f == 2 || f == 3 || f == 5 || f == 7 || f == 8 || f == 10
    }

    /// Whether the record carries a near-infrared value.
    pub fn has_nir(&self) -> (b: bool)
        ensures
            b == format_has_nir(self.format_code()),
            b == nir_of(*self) is Some,
    {
        let f = self.format();
        f == 8 || f == 10
    }

    /// Whether the record points into the waveform data.
    pub fn has_wave_packet(&self) -> (b: bool)
        ensures
            b == format_has_wave_packet(self.format_code()),
            b == wave_packet_of(*self) is Some,
    {
        let f = self.format();
        f == 4 || f == 5 || f == 9 || f == 10
    }

    /// Whether the record has the wider classification and flags of the
    /// formats 6 to 10.
    pub fn is_extended(&self) -> (b: bool)
        ensures
            b == format_is_extended(self.format_code()),
            b == extended_core_of(*self) is Some,
    {
        self.format() >= 6
    }

    /// The GPS time, as the 64 bits of an IEEE 754 number.
    pub fn gps_time(&self) -> (r: Result<u64, LasError>)
        ensures
            r == answer(gps_time_of(*self)),
    {
        match self {
            PointRecord::Format1 { gps_time, .. } => Ok(*gps_time),
            PointRecord::Format3 { gps_time, .. } => Ok(*gps_time),
            PointRecord::Format4 { gps_time, .. } => Ok(*gps_time),
            PointRecord::Format5 { gps_time, .. } => Ok(*gps_time),
            PointRecord::Format0 { .. } => Err(LasError::FieldNotAvailable),
            PointRecord::Format2 { .. } => Err(LasError::FieldNotAvailable),
            _ => Ok(self.extended_core().gps_time),
        }
    }

    /// The colour.
    pub fn color(&self) -> (r: Result<Rgb, LasError>)
        ensures
            r == answer(color_of(*self)),
    {
        match self {
            PointRecord::Format2 { color, .. } => Ok(*color),
            PointRecord::Format3 { color, .. } => Ok(*color),
            PointRecord::Format5 { color, .. } => Ok(*color),
            PointRecord::Format7 { color, .. } => Ok(*color),
            PointRecord::Format8 { color, .. } => Ok(*color),
            PointRecord::Format10 { color, .. } => Ok(*color),
            _ => Err(LasError::FieldNotAvailable),
        }
    }

    /// The near-infrared value.
    pub fn nir(&self) -> (r: Result<u16, LasError>)
        ensures
            r == answer(nir_of(*self)),
    {
        match self {
            PointRecord::Format8 { nir, .. } => Ok(*nir),
            PointRecord::Format10 { nir, .. } => Ok(*nir),
            _ => Err(LasError::FieldNotAvailable),
        }
    }

    /// The waveform packet reference.
    pub fn wave_packet(&self) -> (r: Result<WavePacket, LasError>)
        ensures
            r == answer(wave_packet_of(*self)),
    {
        match self {
            PointRecord::Format4 { wave, .. } => Ok(*wave),
            PointRecord::Format5 { wave, .. } => Ok(*wave),
            PointRecord::Format9 { wave, .. } => Ok(*wave),
            PointRecord::Format10 { wave, .. } => Ok(*wave),
            _ => Err(LasError::FieldNotAvailable),
        }
    }

    /// The overlap flag.
    pub fn is_overlap(&self) -> (r: Result<bool, LasError>)
        ensures
            r == answer(overlap_of(*self)),
    {
        if self.is_extended() {
            Ok(self.extended_core().flag_byte / 8 % 2 == 1)
        } else {
            Err(LasError::FieldNotAvailable)
        }
    }

    /// The scanner channel, 0 to 3.
    pub fn scanner_channel(&self) -> (r: Result<u8, LasError>)
        ensures
            r == answer(scanner_channel_of(*self)),
            r matches Ok(channel) ==> channel <= 3,
    {
        if self.is_extended() {
            Ok(self.extended_core().flag_byte / 16 % 4)
        } else {
            Err(LasError::FieldNotAvailable)
        }
    }

    /// The scan angle in steps of 0.006 degrees.
    pub fn scan_angle(&self) -> (r: Result<i16, LasError>)
        ensures
            r == answer(scan_angle_of(*self)),
    {
        if self.is_extended() {
            Ok(self.extended_core().scan_angle)
        } else {
            Err(LasError::FieldNotAvailable)
        }
    }

    /// The scan angle rank in degrees.
    pub fn scan_angle_rank(&self) -> (r: Result<i8, LasError>)
        ensures
            r == answer(scan_angle_rank_of(*self)),
    {
        match self.base_core() {
            Some(c) => Ok(c.scan_angle_rank),
            None => Err(LasError::FieldNotAvailable),
        }
    }
}

} // verus!
