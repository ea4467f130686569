use whitebox_lidar::error::LasError;
use whitebox_lidar::header::{Bounds, Header, Transform};

fn padded(text: &str, len: usize) -> Vec<u8> {
    let mut out = text.as_bytes().to_vec();
    out.resize(len, 0);
    out
}

fn header(minor: u8, format: u8, count: u32) -> Header {
    let size: u16 = match minor {
        0..=2 => 227,
        3 => 235,
        _ => 375,
    };
    Header {
        file_source_id: 12,
        global_encoding: 1,
        project_id: (1..=16).collect(),
        version_major: 1,
        version_minor: minor,
        system_identifier: padded("a scanner", 32),
        generating_software: padded("the software", 32),
        creation_day: 200,
        creation_year: 2020,
        header_size: size,
        offset_to_point_data: size as u32,
        vlr_count: 0,
        point_format: format,
        compressed: false,
        point_record_length: 34,
        legacy_point_count: if minor == 4 { 0 } else { count },
        legacy_points_by_return: vec![0; 20],
        transform: Transform {
            x_scale: 0.01f64.to_bits(),
            y_scale: 0.01f64.to_bits(),
            z_scale: 0.01f64.to_bits(),
            x_offset: 0.0f64.to_bits(),
            y_offset: 0.0f64.to_bits(),
            z_offset: 0.0f64.to_bits(),
        },
        bounds: Bounds {
            max_x: 10.0f64.to_bits(),
            min_x: (-10.0f64).to_bits(),
            max_y: 20.0f64.to_bits(),
            min_y: (-20.0f64).to_bits(),
            max_z: 30.0f64.to_bits(),
            min_z: (-30.0f64).to_bits(),
        },
        waveform_start: if minor >= 3 { 4000 } else { 0 },
        first_evlr: if minor == 4 { 5000 } else { 0 },
        evlr_count: if minor == 4 { 2 } else { 0 },
        extended_point_count: if minor == 4 { count as u64 } else { 0 },
        points_by_return: if minor == 4 { (0..120).collect() } else { vec![] },
        extension: vec![],
    }
}

fn file_of(h: &Header) -> Vec<u8> {
    let mut bytes = h.serialize().unwrap();
    let points = h.point_record_length as usize * h.point_count() as usize;
    bytes.resize(h.offset_to_point_data as usize + points, 0);
    bytes
}

#[test]
fn a_header_is_written_field_by_field() {
    let bytes = header(2, 3, 100).serialize().unwrap();
    assert_eq!(bytes.len(), 227);
    assert_eq!(&bytes[0..4], b"LASF");
    assert_eq!(&bytes[4..8], &[12, 0, 1, 0]);
    assert_eq!(&bytes[8..24], &(1..=16).collect::<Vec<u8>>()[..]);
    assert_eq!(&bytes[24..26], &[1, 2]);
    assert_eq!(&bytes[26..58], &padded("a scanner", 32)[..]);
    assert_eq!(&bytes[58..90], &padded("the software", 32)[..]);
    assert_eq!(&bytes[90..94], &[200, 0, 0xE4, 0x07]);
    assert_eq!(&bytes[94..96], &[227, 0]);
    assert_eq!(&bytes[96..100], &[227, 0, 0, 0]);
    assert_eq!(&bytes[100..104], &[0, 0, 0, 0]);
    assert_eq!(bytes[104], 3);
    assert_eq!(&bytes[105..107], &[34, 0]);
    assert_eq!(&bytes[107..111], &[100, 0, 0, 0]);
    assert_eq!(&bytes[111..131], &[0u8; 20]);
    assert_eq!(&bytes[131..139], &0.01f64.to_le_bytes());
    assert_eq!(&bytes[147..155], &0.01f64.to_le_bytes());
    assert_eq!(&bytes[155..163], &0.0f64.to_le_bytes());
    assert_eq!(&bytes[179..187], &10.0f64.to_le_bytes());
    assert_eq!(&bytes[187..195], &(-10.0f64).to_le_bytes());
    assert_eq!(&bytes[219..227], &(-30.0f64).to_le_bytes());
}

#[test]
fn the_fields_of_the_later_versions_follow() {
    let bytes = header(3, 1, 0).serialize().unwrap();
    assert_eq!(bytes.len(), 235);
    assert_eq!(&bytes[227..235], &4000u64.to_le_bytes());
    let bytes = header(4, 6, 9).serialize().unwrap();
    assert_eq!(bytes.len(), 375);
    assert_eq!(&bytes[227..235], &4000u64.to_le_bytes());
    assert_eq!(&bytes[235..243], &5000u64.to_le_bytes());
    assert_eq!(&bytes[243..247], &2u32.to_le_bytes());
    assert_eq!(&bytes[247..255], &9u64.to_le_bytes());
    assert_eq!(&bytes[255..375], &(0..120).collect::<Vec<u8>>()[..]);
}

#[test]
fn a_compressed_file_is_marked_in_the_format_byte() {
    let mut h = header(2, 3, 0);
    h.compressed = true;
    let bytes = h.serialize().unwrap();
    assert_eq!(bytes[104], 0x83);
    let parsed = Header::parse(&bytes).unwrap();
    assert!(parsed.compressed);
    assert_eq!(parsed.point_format, 3);
}

#[test]
fn parse_undoes_serialize_for_every_version() {
    for minor in 0..=4u8 {
        let h = header(minor, 3, 100);
        let parsed = Header::parse(&file_of(&h)).unwrap();
        assert_eq!(parsed, h);
        assert_eq!(parsed.point_count(), 100);
    }
}

#[test]
fn parse_undoes_serialize_of_a_header_with_an_extension() {
    let mut h = header(2, 0, 3);
    h.extension = vec![9, 8, 7, 6, 5];
    h.header_size = 232;
    h.offset_to_point_data = 300;
    let bytes = h.serialize().unwrap();
    assert_eq!(bytes.len(), 232);
    assert_eq!(&bytes[227..], &[9, 8, 7, 6, 5]);
    assert_eq!(Header::parse(&file_of(&h)), Ok(h));
}

#[test]
fn serialize_undoes_parse() {
    let mut bytes: Vec<u8> = (0..400u32).map(|i| (i * 7 + 3) as u8).collect();
    bytes[0..4].copy_from_slice(b"LASF");
    bytes[24] = 1;
    bytes[25] = 4;
    bytes[94..96].copy_from_slice(&380u16.to_le_bytes());
    bytes[96..100].copy_from_slice(&390u32.to_le_bytes());
    bytes[105..107].copy_from_slice(&5u16.to_le_bytes());
    bytes[247..255].copy_from_slice(&2u64.to_le_bytes());
    let h = Header::parse(&bytes).unwrap();
    assert_eq!(h.header_size, 380);
    assert_eq!(h.extension.len(), 5);
    assert_eq!(h.point_count(), 2);
    assert_eq!(h.serialize().unwrap(), bytes[..380].to_vec());
}

#[test]
fn the_point_count_is_that_of_the_version() {
    let mut h = header(4, 6, 77);
    h.legacy_point_count = 5;
    assert_eq!(h.point_count(), 77);
    let h = header(2, 0, 77);
    assert_eq!(h.point_count(), 77);
}

#[test]
fn parse_refuses_a_file_without_the_signature() {
    let h = header(2, 3, 1);
    let mut bytes = file_of(&h);
    bytes[3] = b'X';
    assert_eq!(Header::parse(&bytes), Err(LasError::MalformedHeader));
    assert_eq!(Header::parse(&[]), Err(LasError::MalformedHeader));
    assert_eq!(Header::parse(b"LASF"), Err(LasError::MalformedHeader));
}

#[test]
fn parse_refuses_a_version_that_is_not_supported() {
    let h = header(2, 3, 1);
    let mut bytes = file_of(&h);
    bytes[25] = 5;
    assert_eq!(Header::parse(&bytes), Err(LasError::MalformedHeader));
    bytes[25] = 2;
    bytes[24] = 2;
    assert_eq!(Header::parse(&bytes), Err(LasError::MalformedHeader));
    bytes[24] = 0;
    assert_eq!(Header::parse(&bytes), Err(LasError::MalformedHeader));
}

#[test]
fn parse_refuses_offsets_that_do_not_fit_the_file() {
    let h = header(2, 3, 1);
    let whole = file_of(&h);
    assert_eq!(whole.len(), 227 + 34);
    assert!(Header::parse(&whole).is_ok());
    assert_eq!(Header::parse(&whole[..whole.len() - 1]), Err(LasError::MalformedHeader));
    assert_eq!(Header::parse(&whole[..226]), Err(LasError::MalformedHeader));
    let mut bytes = whole.clone();
    bytes[94..96].copy_from_slice(&226u16.to_le_bytes());
    assert_eq!(Header::parse(&bytes), Err(LasError::MalformedHeader));
    let mut bytes = whole.clone();
    bytes[94..96].copy_from_slice(&1000u16.to_le_bytes());
    assert_eq!(Header::parse(&bytes), Err(LasError::MalformedHeader));
    let mut bytes = whole.clone();
    bytes[96..100].copy_from_slice(&226u32.to_le_bytes());
    assert_eq!(Header::parse(&bytes), Err(LasError::MalformedHeader));
    let mut bytes = whole.clone();
    bytes[107..111].copy_from_slice(&2u32.to_le_bytes());
    assert_eq!(Header::parse(&bytes), Err(LasError::MalformedHeader));
    let mut short = header(4, 6, 0).serialize().unwrap();
    short.truncate(300);
    assert_eq!(Header::parse(&short), Err(LasError::MalformedHeader));
}

#[test]
fn parse_refuses_a_scale_factor_of_zero() {
    for at in [131usize, 139, 147] {
        let mut bytes = file_of(&header(2, 3, 1));
        bytes[at..at + 8].copy_from_slice(&0.0f64.to_le_bytes());
        assert_eq!(Header::parse(&bytes), Err(LasError::MalformedHeader));
        bytes[at..at + 8].copy_from_slice(&(-0.0f64).to_le_bytes());
        assert_eq!(Header::parse(&bytes), Err(LasError::MalformedHeader));
        bytes[at..at + 8].copy_from_slice(&(-0.5f64).to_le_bytes());
        assert!(Header::parse(&bytes).is_ok());
    }
}

#[test]
fn serialize_refuses_a_header_that_no_file_can_have() {
    assert!(header(2, 3, 1).is_valid());
    let mut h = header(2, 3, 1);
    h.version_minor = 5;
    assert!(!h.is_valid());
    assert_eq!(h.serialize(), Err(LasError::MalformedHeader));
    let mut h = header(2, 3, 1);
    h.system_identifier.pop();
    assert_eq!(h.serialize(), Err(LasError::MalformedHeader));
    let mut h = header(2, 3, 1);
    h.waveform_start = 1;
    assert_eq!(h.serialize(), Err(LasError::MalformedHeader));
    let mut h = header(3, 3, 1);
    h.extended_point_count = 1;
    assert_eq!(h.serialize(), Err(LasError::MalformedHeader));
    let mut h = header(2, 3, 1);
    h.header_size = 228;
    assert_eq!(h.serialize(), Err(LasError::MalformedHeader));
    let mut h = header(2, 3, 1);
    h.offset_to_point_data = 100;
    assert_eq!(h.serialize(), Err(LasError::MalformedHeader));
    let mut h = header(2, 3, 1);
    h.transform.y_scale = 0;
    assert_eq!(h.serialize(), Err(LasError::MalformedHeader));
    let mut h = header(2, 3, 1);
    h.point_format = 128;
    assert_eq!(h.serialize(), Err(LasError::MalformedHeader));
    let mut h = header(4, 6, 1);
    h.points_by_return.pop();
    let mut out = vec![1, 2];
    assert_eq!(h.write(&mut out), Err(LasError::MalformedHeader));
    assert_eq!(out, vec![1, 2]);
}

#[test]
fn a_header_fits_a_file_that_holds_its_points() {
    let h = header(2, 3, 100);
    assert!(h.fits(227 + 3400));
    assert!(!h.fits(227 + 3399));
    let mut h = header(2, 3, 100);
    h.compressed = true;
    assert!(h.fits(227));
    assert!(!h.fits(226));
}

#[test]
fn the_global_encoding_is_read_bit_by_bit() {
    let mut h = header(2, 3, 1);
    h.global_encoding = 0b1_0101;
    assert!(h.gps_time_is_absolute());
    assert!(!h.waveform_is_internal());
    assert!(h.waveform_is_external());
    assert!(!h.return_numbers_are_synthetic());
    assert!(h.crs_is_wkt());
    h.global_encoding = 0b0_1010;
    assert!(!h.gps_time_is_absolute());
    assert!(h.waveform_is_internal());
    assert!(!h.waveform_is_external());
    assert!(h.return_numbers_are_synthetic());
    assert!(!h.crs_is_wkt());
    h.global_encoding = 0xFFE0;
    assert!(!h.gps_time_is_absolute());
    assert!(!h.crs_is_wkt());
}

#[test]
fn the_points_of_each_return_are_read_from_their_bytes() {
    let mut h = header(2, 3, 1);
    h.legacy_points_by_return = vec![1, 0, 0, 0, 0, 1, 0, 0, 2, 0, 0, 0, 3, 0, 0, 0, 0xFF, 0xFF, 0xFF, 0xFF];
    assert_eq!(h.points_of_return(0), Some(1));
    assert_eq!(h.points_of_return(1), Some(256));
    assert_eq!(h.points_of_return(4), Some(u32::MAX as u64));
    assert_eq!(h.points_of_return(5), None);
    let mut h = header(4, 6, 1);
    h.points_by_return = vec![0; 120];
    h.points_by_return[8] = 7;
    h.points_by_return[112..120].copy_from_slice(&u64::MAX.to_le_bytes());
    assert_eq!(h.points_of_return(0), Some(0));
    assert_eq!(h.points_of_return(1), Some(7));
    assert_eq!(h.points_of_return(14), Some(u64::MAX));
    assert_eq!(h.points_of_return(15), None);
    h.points_by_return.pop();
    assert_eq!(h.points_of_return(0), None);
}
