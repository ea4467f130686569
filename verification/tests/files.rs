use whitebox_lidar::codec::{compress, ChunkEntry};
use whitebox_lidar::error::LasError;
use whitebox_lidar::file::LasFile;
use whitebox_lidar::header::{Bounds, Header, Transform};
use whitebox_lidar::point::{record_len, Core, ExtendedCore, PointRecord, Rgb};
use whitebox_lidar::vlr::Vlr;
use whitebox_lidar::writer;
use whitebox_lidar::writer::DEFAULT_CHUNK_SIZE;

fn padded(text: &str, len: usize) -> Vec<u8> {
    let mut out = text.as_bytes().to_vec();
    out.resize(len, 0);
    out
}

fn header(minor: u8, format: u8, count: u64, vlrs: &[Vlr], compressed: bool) -> Header {
    let size: u16 = match minor {
        0..=2 => 227,
        3 => 235,
        _ => 375,
    };
    let vlr_bytes: usize = vlrs.iter().map(|v| v.byte_len()).sum();
    Header {
        file_source_id: 0,
        global_encoding: 0,
        project_id: vec![0; 16],
        version_major: 1,
        version_minor: minor,
        system_identifier: padded("system", 32),
        generating_software: padded("software", 32),
        creation_day: 1,
        creation_year: 2024,
        header_size: size,
        offset_to_point_data: size as u32 + vlr_bytes as u32,
        vlr_count: vlrs.len() as u32,
        point_format: format,
        compressed,
        point_record_length: record_len(format) as u16,
        legacy_point_count: if minor == 4 { 0 } else { count as u32 },
        legacy_points_by_return: vec![0; 20],
        transform: Transform {
            x_scale: 0.01f64.to_bits(),
            y_scale: 0.01f64.to_bits(),
            z_scale: 0.01f64.to_bits(),
            x_offset: 0.0f64.to_bits(),
            y_offset: 0.0f64.to_bits(),
            z_offset: 0.0f64.to_bits(),
        },
        bounds: Bounds {
            max_x: 1.0f64.to_bits(),
            min_x: 0.0f64.to_bits(),
            max_y: 1.0f64.to_bits(),
            min_y: 0.0f64.to_bits(),
            max_z: 1.0f64.to_bits(),
            min_z: 0.0f64.to_bits(),
        },
        waveform_start: 0,
        first_evlr: 0,
        evlr_count: 0,
        extended_point_count: if minor == 4 { count } else { 0 },
        points_by_return: if minor == 4 { vec![0; 120] } else { vec![] },
        extension: vec![],
    }
}

fn point3(i: i32) -> PointRecord {
    PointRecord::Format3 {
        core: Core {
            x: 100 * i,
            y: -7 * i,
            z: 50 + i % 3,
            intensity: (i % 4000) as u16,
            return_byte: 0x11,
            class_byte: 2,
            scan_angle_rank: (i % 20) as i8,
            user_data: 0,
            point_source_id: 1,
        },
        gps_time: (1000.0 + i as f64).to_bits(),
        color: Rgb { red: (i % 256) as u16, green: 2, blue: 3 },
    }
}

fn point6(i: i32) -> PointRecord {
    PointRecord::Format6 {
        core: ExtendedCore {
            x: i,
            y: 2 * i,
            z: -i,
            intensity: 9,
            return_byte: 0x21,
            flag_byte: 0,
            classification: 5,
            user_data: 0,
            scan_angle: (i % 100) as i16,
            point_source_id: 4,
            gps_time: (0.25 * i as f64).to_bits(),
        },
    }
}

fn vlrs() -> Vec<Vlr> {
    vec![
        Vlr::new(0, &padded("LASF_Projection", 16), 34735, &padded("keys", 32), vec![1, 0, 1, 0])
            .unwrap(),
        Vlr::new(0, &padded("LASF_Projection", 16), 34737, &padded("text", 32), b"NAD83|".to_vec())
            .unwrap(),
    ]
}

#[test]
fn a_file_of_version_1_2_and_format_3_with_100_points() {
    let points: Vec<PointRecord> = (0..100).map(point3).collect();
    let h = header(2, 3, 100, &[], false);
    let bytes = writer::write(&h, &vec![], &points, false).unwrap();
    assert_eq!(bytes.len(), 227 + 100 * 34);
    let file = LasFile::open(bytes).unwrap();
    assert_eq!(file.point_count(), 100);
    assert_eq!(file.header().version_minor, 2);
    assert_eq!(file.header().point_format, 3);
    assert_eq!(f64::from_bits(file.header().transform.x_scale), 0.01);
    assert_eq!(f64::from_bits(file.header().transform.z_offset), 0.0);
    let read = file.iter_points();
    assert_eq!(read.len(), 100);
    for (i, record) in read.iter().enumerate() {
        let record = record.unwrap();
        assert_eq!(record, points[i]);
        assert!(record.has_gps_time());
        assert_eq!(record.gps_time(), Ok((1000.0 + i as f64).to_bits()));
        assert!(record.has_color());
        assert_eq!(record.color(), Ok(Rgb { red: (i % 256) as u16, green: 2, blue: 3 }));
        assert!(!record.has_nir());
        assert_eq!(record.nir(), Err(LasError::FieldNotAvailable));
    }
}

#[test]
fn a_point_of_a_compressed_file_is_that_of_the_plain_file() {
    let points: Vec<PointRecord> = (0..2000).map(point3).collect();
    let plain = writer::write(&header(2, 3, 2000, &[], false), &vec![], &points, false).unwrap();
    let (stream, table) = compress(&points, 1000);
    assert_eq!(table.len(), 2);
    assert_eq!(table[0].point_count, 1000);
    assert_eq!(table[1].point_count, 1000);
    let mut packed = header(2, 3, 2000, &[], true).serialize().unwrap();
    packed.extend_from_slice(&stream);
    for entry in &table {
        packed.extend_from_slice(&entry.point_count.to_le_bytes());
        packed.extend_from_slice(&entry.byte_length.to_le_bytes());
    }
    packed.extend_from_slice(&2u64.to_le_bytes());
    let plain = LasFile::open(plain).unwrap();
    let packed = LasFile::open(packed).unwrap();
    assert_eq!(packed.chunk_table(), &table);
    assert_eq!(packed.point_count(), 2000);
    assert_eq!(packed.get_point(1500), Ok(points[1500]));
    assert_eq!(packed.get_point(1500), plain.get_point(1500));
    for index in [0u64, 1, 999, 1000, 1001, 1999] {
        assert_eq!(packed.get_point(index), plain.get_point(index));
        assert_eq!(packed.get_point(index), Ok(points[index as usize]));
    }
    assert_eq!(packed.get_point(2000), Err(LasError::TruncatedRecord));
    assert_eq!(plain.get_point(2000), Err(LasError::TruncatedRecord));
    assert_eq!(plain.get_point(u64::MAX), Err(LasError::TruncatedRecord));
}

#[test]
fn open_gives_back_what_write_wrote() {
    for (minor, format) in [(0u8, 3u8), (2, 3), (3, 3), (4, 6)] {
        for compressed in [false, true] {
            let points: Vec<PointRecord> =
                (0..57).map(|i| if format == 3 { point3(i) } else { point6(i) }).collect();
            let h = header(minor, format, 57, &vlrs(), compressed);
            let bytes = writer::write(&h, &vlrs(), &points, compressed).unwrap();
            let file = LasFile::open(bytes).unwrap();
            assert_eq!(file.header(), &h);
            assert_eq!(file.vlrs(), &vlrs());
            assert_eq!(file.point_count(), 57);
            let read: Vec<PointRecord> = file.iter_points().into_iter().map(|p| p.unwrap()).collect();
            assert_eq!(read, points);
            for i in 0..57u64 {
                assert_eq!(file.get_point(i), Ok(points[i as usize]));
            }
            assert_eq!(file.chunk_table().len(), if compressed { 1 } else { 0 });
        }
    }
}

#[test]
fn a_written_file_is_header_records_and_points() {
    let points: Vec<PointRecord> = (0..3).map(point3).collect();
    let h = header(2, 3, 3, &vlrs(), false);
    let bytes = writer::write(&h, &vlrs(), &points, false).unwrap();
    let mut expected = h.serialize().unwrap();
    Vlr::write_all(&vlrs(), &mut expected);
    for p in &points {
        expected.extend_from_slice(&p.to_bytes());
    }
    assert_eq!(bytes, expected);
    let h = header(2, 3, 3, &vlrs(), true);
    let bytes = writer::write(&h, &vlrs(), &points, true).unwrap();
    let (stream, table) = compress(&points, DEFAULT_CHUNK_SIZE);
    let mut expected = h.serialize().unwrap();
    Vlr::write_all(&vlrs(), &mut expected);
    expected.extend_from_slice(&stream);
    expected.extend_from_slice(&3u64.to_le_bytes());
    expected.extend_from_slice(&table[0].byte_length.to_le_bytes());
    expected.extend_from_slice(&1u64.to_le_bytes());
    assert_eq!(bytes, expected);
}

#[test]
fn a_file_without_points_can_be_written_and_opened() {
    for compressed in [false, true] {
        let h = header(2, 0, 0, &[], compressed);
        let bytes = writer::write(&h, &vec![], &vec![], compressed).unwrap();
        assert_eq!(bytes.len(), if compressed { 235 } else { 227 });
        let file = LasFile::open(bytes).unwrap();
        assert_eq!(file.point_count(), 0);
        assert!(file.iter_points().is_empty());
        assert_eq!(file.get_point(0), Err(LasError::TruncatedRecord));
    }
}

#[test]
fn write_refuses_what_does_not_fit_the_header() {
    let points: Vec<PointRecord> = (0..5).map(point3).collect();
    let good = header(2, 3, 5, &vlrs(), false);
    assert!(writer::write(&good, &vlrs(), &points, false).is_ok());
    assert_eq!(writer::write(&good, &vlrs(), &points, true), Err(LasError::MalformedHeader));
    assert_eq!(writer::write(&good, &vec![], &points, false), Err(LasError::MalformedHeader));
    assert_eq!(writer::write(&good, &vlrs(), &points[..4].to_vec(), false), Err(LasError::MalformedHeader));
    let mut h = good.clone();
    h.offset_to_point_data += 1;
    assert_eq!(writer::write(&h, &vlrs(), &points, false), Err(LasError::MalformedHeader));
    let mut h = good.clone();
    h.point_record_length = 35;
    assert_eq!(writer::write(&h, &vlrs(), &points, false), Err(LasError::MalformedHeader));
    let mut h = good.clone();
    h.version_minor = 9;
    assert_eq!(writer::write(&h, &vlrs(), &points, false), Err(LasError::MalformedHeader));
    let mut mixed = points.clone();
    mixed[2] = point6(2);
    assert_eq!(writer::write(&good, &vlrs(), &mixed, false), Err(LasError::MalformedHeader));
    let mut h = good.clone();
    h.point_format = 11;
    assert_eq!(writer::write(&h, &vlrs(), &points, false), Err(LasError::UnsupportedFormat));
}

#[test]
fn open_refuses_a_file_without_a_header() {
    assert_eq!(LasFile::open(vec![]).err(), Some(LasError::MalformedHeader));
    assert_eq!(LasFile::open(vec![0; 500]).err(), Some(LasError::MalformedHeader));
}

#[test]
fn open_refuses_a_point_format_above_10() {
    let mut bytes = header(2, 3, 0, &[], false).serialize().unwrap();
    bytes[104] = 11;
    assert_eq!(LasFile::open(bytes.clone()).err(), Some(LasError::UnsupportedFormat));
    bytes[104] = 127;
    assert_eq!(LasFile::open(bytes.clone()).err(), Some(LasError::UnsupportedFormat));
    bytes[104] = 10;
    bytes[105] = 67;
    assert!(LasFile::open(bytes).is_ok());
}

#[test]
fn open_refuses_a_record_length_below_that_of_the_format() {
    let mut bytes = header(2, 3, 0, &[], false).serialize().unwrap();
    bytes[105] = 33;
    assert_eq!(LasFile::open(bytes.clone()).err(), Some(LasError::MalformedHeader));
    bytes[105] = 40;
    assert!(LasFile::open(bytes).is_ok());
}

#[test]
fn records_longer_than_their_format_are_read_by_their_length() {
    let mut h = header(2, 0, 2, &[], false);
    h.point_record_length = 23;
    let mut bytes = h.serialize().unwrap();
    let a = PointRecord::Format0 {
        core: Core {
            x: 1,
            y: 2,
            z: 3,
            intensity: 4,
            return_byte: 5,
            class_byte: 6,
            scan_angle_rank: 7,
            user_data: 8,
            point_source_id: 9,
        },
    };
    let b = PointRecord::Format0 {
        core: Core {
            x: -1,
            y: -2,
            z: -3,
            intensity: 40,
            return_byte: 50,
            class_byte: 60,
            scan_angle_rank: -7,
            user_data: 80,
            point_source_id: 90,
        },
    };
    bytes.extend_from_slice(&a.to_bytes());
    bytes.extend_from_slice(&[0xEE; 3]);
    bytes.extend_from_slice(&b.to_bytes());
    bytes.extend_from_slice(&[0xEE; 3]);
    let file = LasFile::open(bytes).unwrap();
    assert_eq!(file.get_point(0), Ok(a));
    assert_eq!(file.get_point(1), Ok(b));
    assert_eq!(file.iter_points(), vec![Ok(a), Ok(b)]);
}

#[test]
fn open_refuses_variable_length_records_that_are_cut_short() {
    let points: Vec<PointRecord> = vec![];
    let h = header(2, 3, 0, &vlrs(), false);
    let bytes = writer::write(&h, &vlrs(), &points, false).unwrap();
    assert!(LasFile::open(bytes.clone()).is_ok());
    let mut cut = bytes.clone();
    cut[100] = 3;
    assert_eq!(LasFile::open(cut).err(), Some(LasError::TruncatedVlr));
}

#[test]
fn open_refuses_a_chunk_table_that_does_not_fit() {
    let points: Vec<PointRecord> = (0..10).map(point3).collect();
    let h = header(2, 3, 10, &[], true);
    let bytes = writer::write(&h, &vec![], &points, true).unwrap();
    assert!(LasFile::open(bytes.clone()).is_ok());
    let n = bytes.len();
    let mut bad = bytes.clone();
    bad[n - 8] = 2;
    assert_eq!(LasFile::open(bad).err(), Some(LasError::MalformedHeader));
    let mut bad = bytes.clone();
    bad[n - 24] = 9;
    assert_eq!(LasFile::open(bad).err(), Some(LasError::MalformedHeader));
    let mut bad = bytes.clone();
    bad[n - 16] ^= 1;
    assert_eq!(LasFile::open(bad).err(), Some(LasError::MalformedHeader));
    let mut bad = bytes.clone();
    bad.truncate(230);
    assert_eq!(LasFile::open(bad).err(), Some(LasError::MalformedHeader));
    let mut bad = bytes.clone();
    bad[n - 1] = 0x80;
    assert_eq!(LasFile::open(bad).err(), Some(LasError::MalformedHeader));
}

#[test]
fn a_corrupt_chunk_leaves_the_other_chunks_readable() {
    let points: Vec<PointRecord> = (0..30).map(point3).collect();
    let (stream, table) = compress(&points, 10);
    let mut bytes = header(2, 3, 30, &[], true).serialize().unwrap();
    let second = bytes.len() + table[0].byte_length as usize;
    bytes.extend_from_slice(&stream);
    for entry in &table {
        bytes.extend_from_slice(&entry.point_count.to_le_bytes());
        bytes.extend_from_slice(&entry.byte_length.to_le_bytes());
    }
    bytes.extend_from_slice(&3u64.to_le_bytes());
    for at in second..second + table[1].byte_length as usize {
        bytes[at] = 0x80;
    }
    let file = LasFile::open(bytes).unwrap();
    let corrupt = Err(LasError::CorruptChunk { offset: table[0].byte_length });
    assert_eq!(file.get_point(0), Ok(points[0]));
    assert_eq!(file.get_point(9), Ok(points[9]));
    assert_eq!(file.get_point(10), corrupt);
    assert_eq!(file.get_point(19), corrupt);
    assert_eq!(file.get_point(20), Ok(points[20]));
    assert_eq!(file.get_point(29), Ok(points[29]));
    let read = file.iter_points();
    assert_eq!(read.len(), 30);
    for i in 0..30 {
        if (10..20).contains(&i) {
            assert_eq!(read[i], corrupt);
        } else {
            assert_eq!(read[i], Ok(points[i]));
        }
    }
}

#[test]
fn the_chunk_table_of_a_file_is_that_of_its_stream() {
    let points: Vec<PointRecord> = (0..10).map(point6).collect();
    let h = header(4, 6, 10, &[], true);
    let bytes = writer::write(&h, &vec![], &points, true).unwrap();
    let (stream, table) = compress(&points, DEFAULT_CHUNK_SIZE);
    let file = LasFile::open(bytes).unwrap();
    assert_eq!(
        file.chunk_table(),
        &vec![ChunkEntry { point_count: 10, byte_length: stream.len() as u64 }]
    );
    assert_eq!(file.chunk_table(), &table);
}
