use whitebox_lidar::codec::{
    compress, decode_chunk, decompress, locate_point, ChunkEntry, ChunkPlace,
};
use whitebox_lidar::error::LasError;
use whitebox_lidar::point::{Core, ExtendedCore, PointRecord, Rgb, WavePacket};
use whitebox_lidar::varint::{push_varint, read_varint};

fn base(i: i32) -> Core {
    Core {
        x: 1000 + 13 * i - (i * i) % 7,
        y: -5000 - 41 * i,
        z: 250 + (i % 5) * 3 - 2,
        intensity: (i * 257 % 65536) as u16,
        return_byte: (i % 256) as u8,
        class_byte: (i * 3 % 256) as u8,
        scan_angle_rank: ((i % 180) - 90) as i8,
        user_data: (i % 2) as u8,
        point_source_id: 17,
    }
}

fn extended(i: i32) -> ExtendedCore {
    ExtendedCore {
        x: i32::MAX - i,
        y: i32::MIN + 3 * i,
        z: if i % 2 == 0 { -i } else { i },
        intensity: (65535 - i % 100) as u16,
        return_byte: (i % 256) as u8,
        flag_byte: (255 - i % 256) as u8,
        classification: (i % 256) as u8,
        user_data: 1,
        scan_angle: (i * 100 % 30000 - 15000) as i16,
        point_source_id: (i % 3) as u16,
        gps_time: (100000.0 + 0.001 * i as f64).to_bits(),
    }
}

fn record(format: u8, i: i32) -> PointRecord {
    let t = (5000.0 + 0.5 * i as f64).to_bits();
    let color = Rgb { red: (i % 65536) as u16, green: 65535, blue: 0 };
    let wave = WavePacket {
        descriptor_index: (i % 4) as u8,
        byte_offset: u64::MAX - i as u64,
        packet_size: 88,
        return_point_location: (i as f32).to_bits(),
        dx: 0.1f32.to_bits(),
        dy: 0.2f32.to_bits(),
        dz: (-0.3f32).to_bits(),
    };
    match format {
        0 => PointRecord::Format0 { core: base(i) },
        1 => PointRecord::Format1 { core: base(i), gps_time: t },
        2 => PointRecord::Format2 { core: base(i), color },
        3 => PointRecord::Format3 { core: base(i), gps_time: t, color },
        4 => PointRecord::Format4 { core: base(i), gps_time: t, wave },
        5 => PointRecord::Format5 { core: base(i), gps_time: t, color, wave },
        6 => PointRecord::Format6 { core: extended(i) },
        7 => PointRecord::Format7 { core: extended(i), color },
        8 => PointRecord::Format8 { core: extended(i), color, nir: (i % 1000) as u16 },
        9 => PointRecord::Format9 { core: extended(i), wave },
        _ => PointRecord::Format10 { core: extended(i), color, nir: (i % 1000) as u16, wave },
    }
}

fn records(format: u8, n: i32) -> Vec<PointRecord> {
    (0..n).map(|i| record(format, i)).collect()
}

fn plain(x: i32, y: i32, z: i32) -> PointRecord {
    PointRecord::Format0 {
        core: Core {
            x,
            y,
            z,
            intensity: 5,
            return_byte: 9,
            class_byte: 2,
            scan_angle_rank: -3,
            user_data: 0,
            point_source_id: 7,
        },
    }
}

#[test]
fn numbers_are_written_seven_bits_to_a_byte() {
    let mut out = vec![0xEE];
    push_varint(&mut out, 0);
    push_varint(&mut out, 127);
    push_varint(&mut out, 128);
    push_varint(&mut out, 300);
    push_varint(&mut out, 16384);
    assert_eq!(out, vec![0xEE, 0, 127, 0x80, 0x01, 0xAC, 0x02, 0x80, 0x80, 0x01]);
    let mut out = Vec::new();
    push_varint(&mut out, u64::MAX);
    assert_eq!(out, vec![0xFF, 0xFF, 0xFF, 0xFF, 0xFF, 0xFF, 0xFF, 0xFF, 0xFF, 0x01]);
}

#[test]
fn numbers_are_read_back() {
    let bytes = vec![0xEE, 0, 127, 0x80, 0x01, 0xAC, 0x02, 0x80, 0x80, 0x01];
    assert_eq!(read_varint(&bytes, 1, 10), Some((0, 2)));
    assert_eq!(read_varint(&bytes, 2, 10), Some((127, 3)));
    assert_eq!(read_varint(&bytes, 3, 10), Some((128, 5)));
    assert_eq!(read_varint(&bytes, 5, 10), Some((300, 7)));
    assert_eq!(read_varint(&bytes, 7, 10), Some((16384, 10)));
    assert_eq!(read_varint(&bytes, 7, 3), Some((16384, 10)));
    assert_eq!(read_varint(&bytes, 7, 2), None);
    assert_eq!(read_varint(&bytes, 8, 10), Some((128, 10)));
    assert_eq!(read_varint(&bytes, 10, 10), None);
    assert_eq!(read_varint(&bytes[..9], 7, 10), None);
    assert_eq!(read_varint(&bytes, 1, 0), None);
    let max = vec![0xFF, 0xFF, 0xFF, 0xFF, 0xFF, 0xFF, 0xFF, 0xFF, 0xFF, 0x01];
    assert_eq!(read_varint(&max, 0, 10), Some((u64::MAX as u128, 10)));
    let long = vec![0x80; 11];
    assert_eq!(read_varint(&long, 0, 10), None);
}

#[test]
fn the_first_record_of_a_chunk_is_coded_against_nothing() {
    let (stream, table) = compress(&vec![plain(1, -1, 300)], 10);
    assert_eq!(stream, vec![2, 1, 0xD8, 0x04, 10, 18, 4, 5, 0, 14]);
    assert_eq!(table, vec![ChunkEntry { point_count: 1, byte_length: 10 }]);
}

#[test]
fn later_records_are_coded_against_the_ones_before() {
    let points = vec![plain(1, -1, 300), plain(3, -1, 310), plain(5, -1, 320), plain(4, -2, 330)];
    let (stream, table) = compress(&points, 0);
    let mut expected = vec![2, 1, 0xD8, 0x04, 10, 18, 4, 5, 0, 14];
    expected.extend_from_slice(&[4, 0, 20, 0, 0, 0, 0, 0, 0]);
    expected.extend_from_slice(&[0, 0, 0, 0, 0, 0, 0, 0, 0]);
    expected.extend_from_slice(&[5, 1, 0, 0, 0, 0, 0, 0, 0]);
    assert_eq!(stream, expected);
    assert_eq!(table, vec![ChunkEntry { point_count: 4, byte_length: 37 }]);
}

#[test]
fn every_chunk_starts_anew() {
    let points = vec![plain(1, -1, 300), plain(3, -1, 310), plain(1, -1, 300)];
    let (stream, table) = compress(&points, 2);
    let mut expected = vec![2, 1, 0xD8, 0x04, 10, 18, 4, 5, 0, 14];
    expected.extend_from_slice(&[4, 0, 20, 0, 0, 0, 0, 0, 0]);
    expected.extend_from_slice(&[2, 1, 0xD8, 0x04, 10, 18, 4, 5, 0, 14]);
    assert_eq!(stream, expected);
    assert_eq!(
        table,
        vec![
            ChunkEntry { point_count: 2, byte_length: 19 },
            ChunkEntry { point_count: 1, byte_length: 10 }
        ]
    );
}

#[test]
fn no_records_give_an_empty_stream() {
    let (stream, table) = compress(&vec![], 5);
    assert!(stream.is_empty());
    assert!(table.is_empty());
    for format in 0..=10u8 {
        assert_eq!(decompress(&stream, &table, format), Ok(vec![]));
    }
    assert_eq!(decompress(&[1, 2, 3], &vec![], 0), Ok(vec![]));
}

#[test]
fn the_chunk_table_counts_the_records_of_each_chunk() {
    let points = records(3, 10);
    for (size, counts) in [
        (0usize, vec![10u64]),
        (1, vec![1; 10]),
        (3, vec![3, 3, 3, 1]),
        (5, vec![5, 5]),
        (10, vec![10]),
        (11, vec![10]),
        (usize::MAX, vec![10]),
    ] {
        let (stream, table) = compress(&points, size);
        assert_eq!(table.iter().map(|e| e.point_count).collect::<Vec<u64>>(), counts);
        assert_eq!(table.iter().map(|e| e.byte_length).sum::<u64>(), stream.len() as u64);
    }
}

#[test]
fn decompress_undoes_compress_for_every_format_and_chunk_size() {
    for format in 0..=10u8 {
        let points = records(format, 23);
        for size in [0usize, 1, 2, 7, 22, 23, 24, 1000] {
            let (stream, table) = compress(&points, size);
            assert_eq!(decompress(&stream, &table, format), Ok(points.clone()));
        }
    }
}

#[test]
fn decompress_undoes_compress_of_many_records() {
    let points = records(1, 5000);
    let (stream, table) = compress(&points, 512);
    assert_eq!(table.len(), 10);
    assert!(stream.len() < 28 * 5000);
    assert_eq!(decompress(&stream, &table, 1), Ok(points));
}

#[test]
fn decompress_undoes_compress_at_the_ends_of_the_ranges() {
    let mut points = Vec::new();
    for (x, t) in [(i32::MIN, 0u64), (i32::MAX, u64::MAX), (-1, 1), (0, u64::MAX - 1), (i32::MIN, 7)]
    {
        let mut c = extended(0);
        c.x = x;
        c.y = -x.saturating_add(1);
        c.z = x / 2;
        c.gps_time = t;
        c.intensity = (x as u32 % 65536) as u16;
        c.scan_angle = (x % 32768) as i16;
        points.push(PointRecord::Format6 { core: c });
    }
    for size in [0usize, 1, 2, 3] {
        let (stream, table) = compress(&points, size);
        assert_eq!(decompress(&stream, &table, 6), Ok(points.clone()));
    }
}

#[test]
fn a_chunk_decodes_alone_to_its_records_of_the_whole() {
    let points = records(7, 25);
    let (stream, table) = compress(&points, 10);
    assert_eq!(table.len(), 3);
    let whole = decompress(&stream, &table, 7).unwrap();
    assert_eq!(decode_chunk(&stream, &table, 0, 7), Ok(whole[0..10].to_vec()));
    assert_eq!(decode_chunk(&stream, &table, 1, 7), Ok(whole[10..20].to_vec()));
    assert_eq!(decode_chunk(&stream, &table, 2, 7), Ok(whole[20..25].to_vec()));
    assert_eq!(decode_chunk(&stream, &table, 1, 11), Err(LasError::UnsupportedFormat));
}

#[test]
fn decompress_refuses_a_format_above_10() {
    let (stream, table) = compress(&records(0, 3), 2);
    assert_eq!(decompress(&stream, &table, 11), Err(LasError::UnsupportedFormat));
    assert_eq!(decompress(&stream, &table, 255), Err(LasError::UnsupportedFormat));
}

#[test]
fn a_stream_that_ends_early_is_corrupt_where_the_chunk_starts() {
    let points = records(0, 6);
    let (stream, table) = compress(&points, 2);
    let first = table[0].byte_length;
    let second = table[1].byte_length;
    let cut = &stream[..stream.len() - 1];
    assert_eq!(
        decompress(cut, &table, 0),
        Err(LasError::CorruptChunk { offset: first + second })
    );
    assert_eq!(decode_chunk(cut, &table, 0, 0), Ok(points[0..2].to_vec()));
    assert_eq!(decode_chunk(cut, &table, 1, 0), Ok(points[2..4].to_vec()));
    assert_eq!(
        decode_chunk(cut, &table, 2, 0),
        Err(LasError::CorruptChunk { offset: first + second })
    );
    assert_eq!(decompress(&[], &table, 0), Err(LasError::CorruptChunk { offset: 0 }));
}

#[test]
fn a_chunk_with_other_records_than_declared_is_corrupt() {
    let points = records(0, 6);
    let (stream, table) = compress(&points, 3);
    let mut more = table.clone();
    more[1].point_count = 4;
    assert_eq!(
        decompress(&stream, &more, 0),
        Err(LasError::CorruptChunk { offset: table[0].byte_length })
    );
    let mut fewer = table.clone();
    fewer[0].point_count = 2;
    assert_eq!(decompress(&stream, &fewer, 0), Err(LasError::CorruptChunk { offset: 0 }));
    let mut shorter = table.clone();
    shorter[0].byte_length -= 1;
    assert_eq!(decompress(&stream, &shorter, 0), Err(LasError::CorruptChunk { offset: 0 }));
    assert_eq!(decode_chunk(&stream, &more, 0, 0), Ok(points[0..3].to_vec()));
}

#[test]
fn a_code_too_large_for_its_field_is_corrupt() {
    let (mut stream, table) = compress(&vec![plain(1, -1, 300)], 1);
    assert_eq!(stream[5], 18);
    stream.splice(5..6, [0x80, 0x02]);
    let table = vec![ChunkEntry { point_count: 1, byte_length: table[0].byte_length + 1 }];
    assert_eq!(decompress(&stream, &table, 0), Err(LasError::CorruptChunk { offset: 0 }));
}

#[test]
fn a_record_is_found_in_the_chunk_that_holds_it() {
    let table = vec![
        ChunkEntry { point_count: 1000, byte_length: 4096 },
        ChunkEntry { point_count: 1000, byte_length: 4050 },
    ];
    assert_eq!(
        locate_point(&table, 1500),
        Some(ChunkPlace { chunk: 1, byte_offset: 4096, skip: 500 })
    );
    assert_eq!(locate_point(&table, 0), Some(ChunkPlace { chunk: 0, byte_offset: 0, skip: 0 }));
    assert_eq!(
        locate_point(&table, 999),
        Some(ChunkPlace { chunk: 0, byte_offset: 0, skip: 999 })
    );
    assert_eq!(
        locate_point(&table, 1000),
        Some(ChunkPlace { chunk: 1, byte_offset: 4096, skip: 0 })
    );
    assert_eq!(
        locate_point(&table, 1999),
        Some(ChunkPlace { chunk: 1, byte_offset: 4096, skip: 999 })
    );
    assert_eq!(locate_point(&table, 2000), None);
    assert_eq!(locate_point(&vec![], 0), None);
}

#[test]
fn empty_chunks_hold_no_record() {
    let table = vec![
        ChunkEntry { point_count: 0, byte_length: 0 },
        ChunkEntry { point_count: 2, byte_length: 30 },
        ChunkEntry { point_count: 0, byte_length: 5 },
        ChunkEntry { point_count: 1, byte_length: 9 },
    ];
    assert_eq!(locate_point(&table, 0), Some(ChunkPlace { chunk: 1, byte_offset: 0, skip: 0 }));
    assert_eq!(locate_point(&table, 2), Some(ChunkPlace { chunk: 3, byte_offset: 35, skip: 0 }));
    assert_eq!(locate_point(&table, 3), None);
}
