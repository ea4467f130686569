use whitebox_lidar::bytes::Endianness;
use whitebox_lidar::crs::geokeys_of;
use whitebox_lidar::error::LasError;
use whitebox_lidar::file::LasFile;
use whitebox_lidar::geokeys::{GeoKeys, KeyValue};
use whitebox_lidar::header::{Bounds, Header, Transform};
use whitebox_lidar::vlr::Vlr;
use whitebox_lidar::writer;

fn padded(text: &str, len: usize) -> Vec<u8> {
    let mut out = text.as_bytes().to_vec();
    out.resize(len, 0);
    out
}

fn le_bytes(numbers: &[u16]) -> Vec<u8> {
    numbers.iter().flat_map(|n| n.to_le_bytes()).collect()
}

fn vlr(user: &str, record_id: u16, payload: Vec<u8>) -> Vlr {
    Vlr::new(0, &padded(user, 16), record_id, &padded("", 32), payload).unwrap()
}

fn projection() -> Vec<Vlr> {
    vec![
        vlr("LASF_Projection", 34735, le_bytes(&[1, 1, 0, 3, 1024, 0, 1, 1, 3072, 0, 1, 26917])),
        vlr("LASF_Spec", 34735, le_bytes(&[9, 9, 9, 9])),
        vlr("LASF_Projection", 34736, 6378137.0f64.to_le_bytes().to_vec()),
        vlr("LASF_Projection", 34737, b" NAD83 / UTM zone 17N| \0".to_vec()),
        vlr("LASF_Projection", 34735, le_bytes(&[2057, 34736, 1, 0])),
        vlr("LASF_Projection", 7, vec![1, 2, 3]),
    ]
}

#[test]
fn geokeys_are_gathered_from_the_projection_records() {
    let keys = geokeys_of(&projection()).unwrap();
    assert_eq!(
        keys.key_directory(),
        &vec![1, 1, 0, 3, 1024, 0, 1, 1, 3072, 0, 1, 26917, 2057, 34736, 1, 0]
    );
    assert_eq!(keys.double_params(), &vec![6378137.0f64.to_bits()]);
    assert_eq!(keys.ascii_params(), &b"NAD83 / UTM zone 17N| \0".to_vec());
    assert!(keys.is_well_formed());
    assert_eq!(keys.find_epsg_code(), 26917);
}

#[test]
fn later_ascii_parameters_take_the_place_of_earlier_ones() {
    let vlrs = vec![
        vlr("LASF_Projection", 34737, b"first|".to_vec()),
        vlr("LASF_Projection", 34737, b"  second|\n".to_vec()),
    ];
    assert_eq!(geokeys_of(&vlrs).unwrap().ascii_params(), &b"second|".to_vec());
}

#[test]
fn no_records_hold_no_geokeys() {
    let keys = geokeys_of(&vec![]).unwrap();
    assert!(keys.key_directory().is_empty());
    assert_eq!(keys.find_epsg_code(), 0);
    let keys = geokeys_of(&vec![vlr("other", 34735, le_bytes(&[1, 1, 0, 0]))]).unwrap();
    assert!(keys.key_directory().is_empty());
}

#[test]
fn a_file_gives_the_geokeys_of_its_records() {
    let vlrs = projection();
    let vlr_bytes: usize = vlrs.iter().map(|v| v.byte_len()).sum();
    let h = Header {
        file_source_id: 0,
        global_encoding: 0,
        project_id: vec![0; 16],
        version_major: 1,
        version_minor: 2,
        system_identifier: padded("", 32),
        generating_software: padded("", 32),
        creation_day: 1,
        creation_year: 2024,
        header_size: 227,
        offset_to_point_data: 227 + vlr_bytes as u32,
        vlr_count: vlrs.len() as u32,
        point_format: 0,
        compressed: false,
        point_record_length: 20,
        legacy_point_count: 0,
        legacy_points_by_return: vec![0; 20],
        transform: Transform {
            x_scale: 0.001f64.to_bits(),
            y_scale: 0.001f64.to_bits(),
            z_scale: 0.001f64.to_bits(),
            x_offset: 0,
            y_offset: 0,
            z_offset: 0,
        },
        bounds: Bounds { max_x: 0, min_x: 0, max_y: 0, min_y: 0, max_z: 0, min_z: 0 },
        waveform_start: 0,
        first_evlr: 0,
        evlr_count: 0,
        extended_point_count: 0,
        points_by_return: vec![],
        extension: vec![],
    };
    let bytes = writer::write(&h, &vlrs, &vec![], false).unwrap();
    let file = LasFile::open(bytes).unwrap();
    let keys = file.geokeys().unwrap();
    assert_eq!(keys.find_epsg_code(), 26917);
    assert_eq!(keys.double_params(), &vec![6378137.0f64.to_bits()]);
    let mut directory = keys.key_directory().clone();
    assert_eq!(directory.len(), 16);
    directory.resize(4 + 4 * 16, 0);
    let mut padded_keys = GeoKeys::new();
    padded_keys.add_key_directory(&le_bytes(&directory), Endianness::LittleEndian);
    padded_keys.add_double_params(&6378137.0f64.to_le_bytes().to_vec(), Endianness::LittleEndian);
    padded_keys.add_ascii_params(keys.ascii_params());
    assert!(padded_keys.is_reportable());
    let report = padded_keys.interpret_geokeys().unwrap();
    assert_eq!(report.keys.len(), 3);
    assert_eq!(
        report.keys[1].value,
        KeyValue::Keyword { name: Some("PCS_NAD83_UTM_zone_17N"), value: 26917 }
    );
}

#[test]
fn a_record_that_ends_within_a_number_holds_no_geokeys() {
    let odd = vec![vlr("LASF_Projection", 34735, vec![1, 0, 1, 0, 0])];
    assert_eq!(geokeys_of(&odd).err(), Some(LasError::TruncatedVlr));
    let short = vec![
        vlr("LASF_Projection", 34735, le_bytes(&[1, 1, 0, 0])),
        vlr("LASF_Projection", 34736, vec![0; 15]),
        vlr("LASF_Projection", 34737, b"text".to_vec()),
    ];
    assert_eq!(geokeys_of(&short).err(), Some(LasError::TruncatedVlr));
    let other = vec![
        vlr("LASF_Spec", 34735, vec![1, 0, 1]),
        vlr("LASF_Projection", 34737, vec![1, 2, 3]),
        vlr("LASF_Projection", 34736, vec![0; 16]),
        vlr("LASF_Projection", 34735, vec![]),
    ];
    let keys = geokeys_of(&other).unwrap();
    assert!(keys.key_directory().is_empty());
    assert_eq!(keys.double_params(), &vec![0, 0]);
}
