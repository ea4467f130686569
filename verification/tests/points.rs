use whitebox_lidar::error::LasError;
use whitebox_lidar::point::{record_len, Core, ExtendedCore, PointRecord, Rgb, WavePacket};

const LENGTHS: [usize; 11] = [20, 28, 26, 34, 57, 63, 30, 36, 38, 59, 67];

fn base() -> Core {
    Core {
        x: 1,
        y: -1,
        z: 300,
        intensity: 5,
        return_byte: 0x09,
        class_byte: 0xA2,
        scan_angle_rank: -3,
        user_data: 0,
        point_source_id: 7,
    }
}

fn extended() -> ExtendedCore {
    ExtendedCore {
        x: -2_000_000_000,
        y: 2_000_000_000,
        z: 0,
        intensity: 65535,
        return_byte: 0x52,
        flag_byte: 0xE9,
        classification: 200,
        user_data: 9,
        scan_angle: -15000,
        point_source_id: 513,
        gps_time: 123456.789f64.to_bits(),
    }
}

fn wave() -> WavePacket {
    WavePacket {
        descriptor_index: 3,
        byte_offset: 0x0102_0304_0506_0708,
        packet_size: 4096,
        return_point_location: 1.5f32.to_bits(),
        dx: 0.25f32.to_bits(),
        dy: (-0.5f32).to_bits(),
        dz: 2.0f32.to_bits(),
    }
}

fn rgb() -> Rgb {
    Rgb { red: 1, green: 0x0203, blue: 65535 }
}

fn one_of_each() -> Vec<PointRecord> {
    let t = 98765.4321f64.to_bits();
    vec![
        PointRecord::Format0 { core: base() },
        PointRecord::Format1 { core: base(), gps_time: t },
        PointRecord::Format2 { core: base(), color: rgb() },
        PointRecord::Format3 { core: base(), gps_time: t, color: rgb() },
        PointRecord::Format4 { core: base(), gps_time: t, wave: wave() },
        PointRecord::Format5 { core: base(), gps_time: t, color: rgb(), wave: wave() },
        PointRecord::Format6 { core: extended() },
        PointRecord::Format7 { core: extended(), color: rgb() },
        PointRecord::Format8 { core: extended(), color: rgb(), nir: 777 },
        PointRecord::Format9 { core: extended(), wave: wave() },
        PointRecord::Format10 { core: extended(), color: rgb(), nir: 777, wave: wave() },
    ]
}

#[test]
fn record_lengths_are_those_of_the_formats() {
    for format in 0..=10u8 {
        assert_eq!(record_len(format), LENGTHS[format as usize]);
    }
}

#[test]
fn decode_succeeds_for_every_format_with_bytes_of_its_length() {
    for format in 0..=10u8 {
        let bytes = vec![0u8; LENGTHS[format as usize]];
        let record = PointRecord::decode(format, &bytes).unwrap();
        assert_eq!(record.format(), format);
    }
}

#[test]
fn decode_refuses_every_other_format_code() {
    let bytes = vec![0u8; 100];
    for format in 11..=255u8 {
        assert_eq!(PointRecord::decode(format, &bytes), Err(LasError::UnsupportedFormat));
        assert_eq!(PointRecord::decode(format, &[]), Err(LasError::UnsupportedFormat));
    }
}

#[test]
fn decode_refuses_too_few_bytes() {
    for format in 0..=10u8 {
        let bytes = vec![0u8; LENGTHS[format as usize] - 1];
        assert_eq!(PointRecord::decode(format, &bytes), Err(LasError::TruncatedRecord));
        assert_eq!(PointRecord::decode(format, &[]), Err(LasError::TruncatedRecord));
    }
}

#[test]
fn decode_reads_the_fields_of_format_0_where_they_stand() {
    let bytes: Vec<u8> = vec![
        0x01, 0x00, 0x00, 0x00, 0xFF, 0xFF, 0xFF, 0xFF, 0x2C, 0x01, 0x00, 0x00, 0x05, 0x00, 0x09,
        0xA2, 0xFD, 0x00, 0x07, 0x00,
    ];
    assert_eq!(PointRecord::decode(0, &bytes), Ok(PointRecord::Format0 { core: base() }));
}

#[test]
fn decode_reads_the_fields_of_format_3_where_they_stand() {
    let mut bytes: Vec<u8> = vec![
        0x01, 0x00, 0x00, 0x00, 0xFF, 0xFF, 0xFF, 0xFF, 0x2C, 0x01, 0x00, 0x00, 0x05, 0x00, 0x09,
        0xA2, 0xFD, 0x00, 0x07, 0x00,
    ];
    bytes.extend_from_slice(&2.5f64.to_le_bytes());
    bytes.extend_from_slice(&[0x01, 0x00, 0x03, 0x02, 0xFF, 0xFF]);
    assert_eq!(
        PointRecord::decode(3, &bytes),
        Ok(PointRecord::Format3 { core: base(), gps_time: 2.5f64.to_bits(), color: rgb() })
    );
}

#[test]
fn decode_reads_the_fields_of_format_10_where_they_stand() {
    let mut bytes: Vec<u8> = Vec::new();
    bytes.extend_from_slice(&(-2_000_000_000i32).to_le_bytes());
    bytes.extend_from_slice(&2_000_000_000i32.to_le_bytes());
    bytes.extend_from_slice(&0i32.to_le_bytes());
    bytes.extend_from_slice(&65535u16.to_le_bytes());
    bytes.extend_from_slice(&[0x52, 0xE9, 200, 9]);
    bytes.extend_from_slice(&(-15000i16).to_le_bytes());
    bytes.extend_from_slice(&513u16.to_le_bytes());
    bytes.extend_from_slice(&123456.789f64.to_le_bytes());
    bytes.extend_from_slice(&[0x01, 0x00, 0x03, 0x02, 0xFF, 0xFF]);
    bytes.extend_from_slice(&777u16.to_le_bytes());
    bytes.push(3);
    bytes.extend_from_slice(&0x0102_0304_0506_0708u64.to_le_bytes());
    bytes.extend_from_slice(&4096u32.to_le_bytes());
    bytes.extend_from_slice(&1.5f32.to_le_bytes());
    bytes.extend_from_slice(&0.25f32.to_le_bytes());
    bytes.extend_from_slice(&(-0.5f32).to_le_bytes());
    bytes.extend_from_slice(&2.0f32.to_le_bytes());
    assert_eq!(bytes.len(), 67);
    assert_eq!(
        PointRecord::decode(10, &bytes),
        Ok(PointRecord::Format10 { core: extended(), color: rgb(), nir: 777, wave: wave() })
    );
    assert_eq!(
        PointRecord::Format10 { core: extended(), color: rgb(), nir: 777, wave: wave() }
            .to_bytes(),
        bytes
    );
}

#[test]
fn decode_leaves_bytes_after_the_record_unread() {
    let mut bytes = PointRecord::Format0 { core: base() }.to_bytes();
    bytes.extend_from_slice(&[9, 9, 9]);
    assert_eq!(PointRecord::decode(0, &bytes), Ok(PointRecord::Format0 { core: base() }));
}

#[test]
fn decode_undoes_encode_for_every_format() {
    for record in one_of_each() {
        let bytes = record.to_bytes();
        assert_eq!(bytes.len(), LENGTHS[record.format() as usize]);
        assert_eq!(PointRecord::decode(record.format(), &bytes), Ok(record));
    }
}

#[test]
fn encode_undoes_decode_for_every_format() {
    for format in 0..=10u8 {
        let bytes: Vec<u8> =
            (0..LENGTHS[format as usize]).map(|i| (i * 37 + 11 + format as usize) as u8).collect();
        let record = PointRecord::decode(format, &bytes).unwrap();
        assert_eq!(record.to_bytes(), bytes);
    }
}

#[test]
fn encode_appends_to_what_is_there() {
    let mut out = vec![0xAA, 0xBB];
    PointRecord::Format0 { core: base() }.encode(&mut out);
    assert_eq!(out.len(), 22);
    assert_eq!(&out[..6], &[0xAA, 0xBB, 0x01, 0x00, 0x00, 0x00]);
}

#[test]
fn every_record_answers_for_the_shared_fields() {
    let records = one_of_each();
    for record in &records[..6] {
        assert_eq!(record.x(), 1);
        assert_eq!(record.y(), -1);
        assert_eq!(record.z(), 300);
        assert_eq!(record.intensity(), 5);
        assert_eq!(record.return_number(), 1);
        assert_eq!(record.number_of_returns(), 1);
        assert!(!record.scan_direction_flag());
        assert!(!record.edge_of_flight_line());
        assert_eq!(record.classification(), 2);
        assert!(record.is_synthetic());
        assert!(!record.is_key_point());
        assert!(record.is_withheld());
        assert_eq!(record.user_data(), 0);
        assert_eq!(record.point_source_id(), 7);
        assert!(!record.is_extended());
    }
    for record in &records[6..] {
        assert_eq!(record.x(), -2_000_000_000);
        assert_eq!(record.y(), 2_000_000_000);
        assert_eq!(record.z(), 0);
        assert_eq!(record.intensity(), 65535);
        assert_eq!(record.return_number(), 2);
        assert_eq!(record.number_of_returns(), 5);
        assert!(record.scan_direction_flag());
        assert!(record.edge_of_flight_line());
        assert_eq!(record.classification(), 200);
        assert!(record.is_synthetic());
        assert!(!record.is_key_point());
        assert!(!record.is_withheld());
        assert_eq!(record.user_data(), 9);
        assert_eq!(record.point_source_id(), 513);
        assert!(record.is_extended());
    }
}

#[test]
fn return_fields_of_the_older_formats_take_three_bits_each() {
    let mut c = base();
    c.return_byte = 0b1111_1111;
    c.class_byte = 0b0111_1111;
    let record = PointRecord::Format0 { core: c };
    assert_eq!(record.return_number(), 7);
    assert_eq!(record.number_of_returns(), 7);
    assert!(record.scan_direction_flag());
    assert!(record.edge_of_flight_line());
    assert_eq!(record.classification(), 31);
    assert!(record.is_synthetic());
    assert!(record.is_key_point());
    assert!(!record.is_withheld());
    c.return_byte = 0b0101_0011;
    let record = PointRecord::Format0 { core: c };
    assert_eq!(record.return_number(), 3);
    assert_eq!(record.number_of_returns(), 2);
    assert!(record.scan_direction_flag());
    assert!(!record.edge_of_flight_line());
}

#[test]
fn fields_of_the_formats_6_to_10_only() {
    let records = one_of_each();
    for record in &records[..6] {
        assert_eq!(record.is_overlap(), Err(LasError::FieldNotAvailable));
        assert_eq!(record.scanner_channel(), Err(LasError::FieldNotAvailable));
        assert_eq!(record.scan_angle(), Err(LasError::FieldNotAvailable));
        assert_eq!(record.scan_angle_rank(), Ok(-3));
    }
    for record in &records[6..] {
        assert_eq!(record.is_overlap(), Ok(true));
        assert_eq!(record.scanner_channel(), Ok(2));
        assert_eq!(record.scan_angle(), Ok(-15000));
        assert_eq!(record.scan_angle_rank(), Err(LasError::FieldNotAvailable));
    }
}

#[test]
fn fields_are_there_as_the_format_says() {
    let has_gps = [false, true, false, true, true, true, true, true, true, true, true];
    let has_color = [false, false, true, true, false, true, false, true, true, false, true];
    let has_nir = [false, false, false, false, false, false, false, false, true, false, true];
    let has_wave = [false, false, false, false, true, true, false, false, false, true, true];
    for (f, record) in one_of_each().iter().enumerate() {
        assert_eq!(record.format() as usize, f);
        assert_eq!(record.has_gps_time(), has_gps[f]);
        assert_eq!(record.gps_time().is_ok(), has_gps[f]);
        assert_eq!(record.has_color(), has_color[f]);
        assert_eq!(record.color().is_ok(), has_color[f]);
        assert_eq!(record.has_nir(), has_nir[f]);
        assert_eq!(record.nir().is_ok(), has_nir[f]);
        assert_eq!(record.has_wave_packet(), has_wave[f]);
        assert_eq!(record.wave_packet().is_ok(), has_wave[f]);
        if !has_gps[f] {
            assert_eq!(record.gps_time(), Err(LasError::FieldNotAvailable));
        }
        if !has_color[f] {
            assert_eq!(record.color(), Err(LasError::FieldNotAvailable));
        }
        if !has_nir[f] {
            assert_eq!(record.nir(), Err(LasError::FieldNotAvailable));
        }
        if !has_wave[f] {
            assert_eq!(record.wave_packet(), Err(LasError::FieldNotAvailable));
        }
    }
}

#[test]
fn optional_fields_give_their_values() {
    let records = one_of_each();
    let t = 98765.4321f64.to_bits();
    assert_eq!(records[1].gps_time(), Ok(t));
    assert_eq!(records[5].gps_time(), Ok(t));
    assert_eq!(records[6].gps_time(), Ok(123456.789f64.to_bits()));
    assert_eq!(records[10].gps_time(), Ok(123456.789f64.to_bits()));
    assert_eq!(records[2].color(), Ok(rgb()));
    assert_eq!(records[7].color(), Ok(rgb()));
    assert_eq!(records[8].nir(), Ok(777));
    assert_eq!(records[10].nir(), Ok(777));
    assert_eq!(records[4].wave_packet(), Ok(wave()));
    assert_eq!(records[9].wave_packet(), Ok(wave()));
}
