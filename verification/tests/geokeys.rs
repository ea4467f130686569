use whitebox_lidar::bytes::Endianness;
use whitebox_lidar::geokey_text::{key_line, report_text, wants_crs};
use whitebox_lidar::geokeys::{GeoKeyReport, GeoKeys, KeyReport, KeyValue};

fn le_bytes(numbers: &[u16]) -> Vec<u8> {
    let mut out = Vec::new();
    for n in numbers {
        out.push((n % 256) as u8);
        out.push((n / 256) as u8);
    }
    out
}

fn keys_of(directory: &[u16]) -> GeoKeys {
    let mut keys = GeoKeys::new();
    keys.add_key_directory(&le_bytes(directory), Endianness::LittleEndian);
    keys
}

#[test]
fn new_geokeys_are_empty() {
    let keys = GeoKeys::new();
    assert!(keys.key_directory().is_empty());
    assert!(keys.double_params().is_empty());
    assert!(keys.ascii_params().is_empty());
    let keys = GeoKeys::default();
    assert!(keys.key_directory().is_empty());
}

#[test]
fn key_directory_is_read_in_either_byte_order() {
    let mut keys = GeoKeys::new();
    keys.add_key_directory(&vec![0x01, 0x02, 0x03, 0x04], Endianness::LittleEndian);
    assert_eq!(keys.key_directory(), &vec![0x0201, 0x0403]);
    keys.add_key_directory(&vec![0x01, 0x02, 0x03, 0x04], Endianness::BigEndian);
    assert_eq!(keys.key_directory(), &vec![0x0201, 0x0403, 0x0102, 0x0304]);
}

#[test]
fn double_params_are_kept_as_their_bits() {
    let mut keys = GeoKeys::new();
    let mut data = Vec::new();
    data.extend_from_slice(&1.5f64.to_le_bytes());
    data.extend_from_slice(&(-0.25f64).to_le_bytes());
    keys.add_double_params(&data, Endianness::LittleEndian);
    assert_eq!(keys.double_params(), &vec![1.5f64.to_bits(), (-0.25f64).to_bits()]);
    let mut keys = GeoKeys::new();
    keys.add_double_params(&6378137.0f64.to_be_bytes().to_vec(), Endianness::BigEndian);
    assert_eq!(f64::from_bits(keys.double_params()[0]), 6378137.0);
    let mut keys = GeoKeys::new();
    keys.add_double_params(&vec![], Endianness::LittleEndian);
    assert!(keys.double_params().is_empty());
}

#[test]
fn ascii_params_are_trimmed() {
    let mut keys = GeoKeys::new();
    keys.add_ascii_params(&b"  WGS 84|NAD83|\n\t ".to_vec());
    assert_eq!(keys.ascii_params(), &b"WGS 84|NAD83|".to_vec());
    keys.add_ascii_params(&b"second".to_vec());
    assert_eq!(keys.ascii_params(), &b"second".to_vec());
}

#[test]
fn ascii_params_replace_what_is_not_utf8() {
    let mut keys = GeoKeys::new();
    keys.add_ascii_params(&vec![0x41, 0xFF, 0x42]);
    assert_eq!(keys.ascii_params(), &vec![0x41, 0xEF, 0xBF, 0xBD, 0x42]);
}

#[test]
fn ascii_params_trim_unicode_white_space() {
    let mut keys = GeoKeys::new();
    keys.add_ascii_params(&"\u{2003}x y\u{00A0}".as_bytes().to_vec());
    assert_eq!(keys.ascii_params(), &b"x y".to_vec());
}

#[test]
fn epsg_code_of_an_empty_directory_is_zero() {
    assert_eq!(GeoKeys::new().find_epsg_code(), 0);
}

#[test]
fn epsg_code_is_taken_from_the_coordinate_system_keys() {
    let keys = keys_of(&[1, 1, 0, 2, 1024, 0, 1, 1, 3072, 0, 1, 26917]);
    assert_eq!(keys.find_epsg_code(), 26917);
    let keys = keys_of(&[1, 1, 0, 1, 2048, 0, 1, 4326]);
    assert_eq!(keys.find_epsg_code(), 4326);
    let keys = keys_of(&[1, 1, 0, 2, 1024, 0, 1, 2, 1025, 0, 1, 1]);
    assert_eq!(keys.find_epsg_code(), 0);
}

#[test]
fn epsg_code_is_that_of_the_last_coordinate_system_key() {
    let keys = keys_of(&[1, 1, 0, 3, 3072, 0, 1, 32617, 2048, 0, 1, 4269, 1024, 0, 1, 1]);
    assert_eq!(keys.find_epsg_code(), 4269);
    let keys = keys_of(&[1, 1, 0, 2, 2048, 0, 1, 4269, 3072, 0, 1, 32617]);
    assert_eq!(keys.find_epsg_code(), 32617);
}

#[test]
fn well_formed_directories_are_told_from_others() {
    assert!(!GeoKeys::new().is_well_formed());
    assert!(keys_of(&[1, 1, 0, 0]).is_well_formed());
    assert!(keys_of(&[1, 1, 0, 1, 1024, 0, 1, 1]).is_well_formed());
    assert!(!keys_of(&[1, 1, 0, 2, 1024, 0, 1, 1]).is_well_formed());
    assert!(!keys_of(&[1, 1, 0, 1, 1026, 34737, 4, 0]).is_well_formed());
    let mut keys = keys_of(&[1, 1, 0, 1, 1026, 34737, 4, 0]);
    keys.add_ascii_params(&b"abc|".to_vec());
    assert!(keys.is_well_formed());
    let mut keys = keys_of(&[1, 1, 0, 1, 2057, 34736, 2, 1]);
    keys.add_double_params(&vec![0u8; 16], Endianness::LittleEndian);
    assert!(!keys.is_well_formed());
    keys.add_double_params(&vec![0u8; 8], Endianness::LittleEndian);
    assert!(keys.is_well_formed());
}

#[test]
fn ifd_map_holds_each_kind_of_key() {
    let mut keys = keys_of(&[
        1, 1, 0, 3, 1026, 34737, 7, 0, 2057, 34736, 2, 1, 1024, 0, 1, 0x0102,
    ]);
    keys.add_ascii_params(&b"WGS|84|rest".to_vec());
    let mut doubles = Vec::new();
    doubles.extend_from_slice(&0.0f64.to_le_bytes());
    doubles.extend_from_slice(&6378137.0f64.to_le_bytes());
    doubles.extend_from_slice(&298.257f64.to_le_bytes());
    keys.add_double_params(&doubles, Endianness::LittleEndian);
    assert!(keys.is_well_formed());
    let map = keys.get_ifd_map(Endianness::BigEndian);
    assert_eq!(map.len(), 3);
    let text = &map[&1026];
    assert_eq!(text.tag, 1026);
    assert_eq!(text.ifd_type, 2);
    assert_eq!(text.num_values, 7);
    assert_eq!(text.offset, 0);
    assert_eq!(text.data, b"WGS84".to_vec());
    assert_eq!(text.byte_order, Endianness::BigEndian);
    let numbers = &map[&2057];
    assert_eq!(numbers.ifd_type, 12);
    assert_eq!(numbers.num_values, 2);
    assert_eq!(numbers.offset, 1);
    let mut expected = Vec::new();
    expected.extend_from_slice(&6378137.0f64.to_le_bytes());
    expected.extend_from_slice(&298.257f64.to_le_bytes());
    assert_eq!(numbers.data, expected);
    let short = &map[&1024];
    assert_eq!(short.ifd_type, 3);
    assert_eq!(short.num_values, 1);
    assert_eq!(short.offset, 0x0102);
    assert_eq!(short.data, vec![0x02, 0x01]);
}

#[test]
fn ifd_map_keeps_the_later_of_two_keys_with_one_code() {
    let keys = keys_of(&[1, 1, 0, 3, 1024, 0, 1, 1, 4000, 9, 1, 5, 1024, 0, 1, 2]);
    assert!(keys.is_well_formed());
    let map = keys.get_ifd_map(Endianness::LittleEndian);
    assert_eq!(map.len(), 2);
    assert_eq!(map[&1024].offset, 2);
    assert_eq!(map[&1024].data, vec![2, 0]);
    assert_eq!(map[&4000].ifd_type, 0);
    assert!(map[&4000].data.is_empty());
    let empty = keys_of(&[1, 1, 0, 0]).get_ifd_map(Endianness::LittleEndian);
    assert!(empty.is_empty());
}

#[test]
fn nothing_is_reported_of_an_empty_directory() {
    let keys = GeoKeys::new();
    assert!(keys.is_reportable());
    assert_eq!(keys.interpret_geokeys(), None);
}

#[test]
fn a_short_directory_reports_its_header_only() {
    let keys = keys_of(&[1, 1, 2, 2, 1024, 0, 1, 1, 3072, 0, 1, 26917]);
    assert!(keys.is_reportable());
    let report = keys.interpret_geokeys().unwrap();
    assert_eq!(report.version, 1);
    assert_eq!(report.revision, 1);
    assert_eq!(report.minor_revision, 2);
    assert!(report.keys.is_empty());
}

#[test]
fn keys_are_reported_with_names_and_values() {
    let mut directory: Vec<u16> = vec![1, 1, 0, 16];
    directory.extend_from_slice(&[1024, 0, 1, 1]);
    directory.extend_from_slice(&[3072, 0, 1, 26917]);
    directory.extend_from_slice(&[1026, 34737, 6, 1]);
    directory.extend_from_slice(&[2057, 34736, 1, 0]);
    for _ in 0..12 {
        directory.extend_from_slice(&[60000, 7, 0, 0]);
    }
    let mut keys = keys_of(&directory);
    keys.add_ascii_params(&b"xNAD|83|".to_vec());
    keys.add_double_params(&6378137.0f64.to_le_bytes().to_vec(), Endianness::LittleEndian);
    assert!(keys.is_reportable());
    let report = keys.interpret_geokeys().unwrap();
    assert_eq!(report.keys.len(), 4);
    assert_eq!(report.keys[0].name, "GTModelTypeGeoKey");
    assert_eq!(report.keys[0].code, 1024);
    assert_eq!(
        report.keys[0].value,
        KeyValue::Keyword { name: Some("ModelTypeProjected"), value: 1 }
    );
    assert_eq!(report.keys[1].name, "ProjectedCSTypeGeoKey");
    assert_eq!(
        report.keys[1].value,
        KeyValue::Keyword { name: Some("PCS_NAD83_UTM_zone_17N"), value: 26917 }
    );
    assert_eq!(report.keys[2].name, "GTCitationGeoKey");
    assert_eq!(report.keys[2].value, KeyValue::Ascii(b"NAD83".to_vec()));
    assert_eq!(report.keys[3].name, "GeogSemiMajorAxisGeoKey");
    assert_eq!(report.keys[3].value, KeyValue::Doubles(vec![6378137.0f64.to_bits()]));
}

#[test]
fn unknown_keys_and_values_are_reported_as_such() {
    let mut directory: Vec<u16> = vec![1, 1, 0, 4];
    directory.extend_from_slice(&[60000, 0, 1, 77]);
    directory.extend_from_slice(&[1024, 0, 1, 9]);
    directory.extend_from_slice(&[1025, 5, 1, 1]);
    directory.extend_from_slice(&[3073, 0, 1, 3]);
    for _ in 0..12 {
        directory.extend_from_slice(&[0, 0, 0, 0]);
    }
    let keys = keys_of(&directory);
    assert!(keys.is_reportable());
    let report = keys.interpret_geokeys().unwrap();
    assert_eq!(report.keys.len(), 4);
    assert_eq!(report.keys[0].name, "Unknown");
    assert_eq!(report.keys[0].code, 0);
    assert_eq!(report.keys[0].value, KeyValue::Plain(77));
    assert_eq!(report.keys[1].value, KeyValue::Keyword { name: None, value: 9 });
    assert_eq!(report.keys[2].name, "GTRasterTypeGeoKey");
    assert_eq!(report.keys[2].value, KeyValue::UnknownLocation);
    assert_eq!(report.keys[3].name, "PCSCitationGeoKey");
    assert_eq!(report.keys[3].value, KeyValue::Plain(3));
}

#[test]
fn a_key_without_its_values_cannot_be_reported() {
    let mut directory: Vec<u16> = vec![1, 1, 0, 1];
    directory.extend_from_slice(&[2057, 34736, 0, 0]);
    for _ in 0..3 {
        directory.extend_from_slice(&[0, 0, 0, 0]);
    }
    assert!(!keys_of(&directory).is_reportable());
    let mut directory: Vec<u16> = vec![1, 1, 0, 1];
    directory.extend_from_slice(&[1026, 34737, 3, 0]);
    for _ in 0..3 {
        directory.extend_from_slice(&[0, 0, 0, 0]);
    }
    assert!(!keys_of(&directory).is_reportable());
    assert!(!keys_of(&[1, 1]).is_reportable());
}

#[test]
fn a_directory_holds_its_keys_or_not() {
    assert!(!GeoKeys::new().has_all_keys());
    assert!(keys_of(&[1, 1, 0, 0]).has_all_keys());
    assert!(keys_of(&[1, 1, 0, 1, 1024, 0, 1, 1]).has_all_keys());
    assert!(keys_of(&[1, 1, 0, 1, 1024, 0, 1, 1, 9]).has_all_keys());
    assert!(!keys_of(&[1, 1, 0, 2, 1024, 0, 1, 1, 9, 9, 9]).has_all_keys());
    assert!(!keys_of(&[1, 1, 0]).has_all_keys());
}

#[test]
fn text_that_cuts_a_character_is_out_of_reach() {
    let mut keys = keys_of(&[1, 1, 0, 1, 1026, 34737, 2, 1]);
    keys.add_ascii_params(&"a\u{e9}b|".as_bytes().to_vec());
    assert_eq!(keys.ascii_params(), &vec![0x61, 0xC3, 0xA9, 0x62, 0x7C]);
    assert!(keys.is_well_formed());
    assert_eq!(keys.get_ifd_map(Endianness::LittleEndian)[&1026].data, vec![0xC3, 0xA9]);
    for (count, from, ok) in [(1u16, 1u16, false), (1, 2, false), (2, 2, false), (1, 3, true), (3, 0, true), (5, 0, true), (0, 2, false), (0, 5, true), (1, 5, false)] {
        let mut keys = keys_of(&[1, 1, 0, 1, 1026, 34737, count, from]);
        keys.add_ascii_params(&"a\u{e9}b|".as_bytes().to_vec());
        assert_eq!(keys.is_well_formed(), ok);
    }
}

#[test]
fn values_that_end_after_the_last_place_of_16_bits_are_out_of_reach() {
    let mut keys = keys_of(&[1, 1, 0, 1, 1026, 34737, 40000, 30000]);
    keys.add_ascii_params(&vec![b'x'; 70001]);
    assert!(!keys.is_well_formed());
    let mut keys = keys_of(&[1, 1, 0, 1, 1026, 34737, 35535, 30000]);
    keys.add_ascii_params(&vec![b'x'; 70001]);
    assert!(keys.is_well_formed());
    let mut keys = keys_of(&[1, 1, 0, 1, 2057, 34736, 65535, 1]);
    keys.add_double_params(&vec![0u8; 8 * 65537], Endianness::LittleEndian);
    assert!(!keys.is_well_formed());
}

fn text_of(keys: &GeoKeys) -> String {
    assert!(keys.is_reportable());
    let report = keys.interpret_geokeys();
    let mut crs = Vec::new();
    let mut doubles = Vec::new();
    if let Some(r) = &report {
        for key in &r.keys {
            crs.push(format!("WKT of {}", key.code));
            doubles.push("the doubles".to_string());
        }
    }
    report_text(&report, &crs, &doubles)
}

fn report_of(directory: &[u16]) -> GeoKeys {
    let mut d = directory.to_vec();
    d.resize(4 + 4 * 4 * directory[3].max(1) as usize, 0);
    keys_of(&d)
}

#[test]
fn the_text_of_an_empty_directory() {
    assert_eq!(text_of(&GeoKeys::default()), "GeoKeys have not been set.");
    assert_eq!(report_text(&None, &vec![], &vec![]), "GeoKeys have not been set.");
}

#[test]
fn the_text_of_a_directory_without_keys() {
    let mut g = GeoKeys::default();
    g.add_key_directory(&vec![1, 0, 1, 0, 0, 0, 0, 0], Endianness::LittleEndian);
    assert_eq!(text_of(&g), "GeoKey Info:\n    Version: 1\n    Key revision: 1.0");
    let g = keys_of(&[12, 345, 6789, 0]);
    assert_eq!(text_of(&g), "GeoKey Info:\n    Version: 12\n    Key revision: 345.6789");
}

#[test]
fn the_text_of_a_directory_with_one_key() {
    let mut g = GeoKeys::default();
    let mut d = vec![1u8, 0, 1, 0, 0, 0, 1, 0, 0, 4, 0, 0, 1, 0, 1, 0];
    d.resize(40, 0);
    g.add_key_directory(&d, Endianness::LittleEndian);
    assert_eq!(
        text_of(&g),
        "GeoKey Info:\n    Version: 1\n    Key revision: 1.0\nGTModelTypeGeoKey (code=1024): ModelTypeProjected (1)"
    );
}

#[test]
fn the_text_of_keys_whose_value_lies_in_the_directory() {
    let g = report_of(&[
        1, 1, 0, 7, 3072, 0, 1, 26917, 2048, 0, 1, 1, 1024, 0, 1, 9, 3073, 0, 1, 65535, 60000, 0,
        1, 0, 2048, 0, 1, 4326, 1025, 0, 1, 2,
    ]);
    assert_eq!(
        text_of(&g),
        "GeoKey Info:\n    Version: 1\n    Key revision: 1.0\n\
         ProjectedCSTypeGeoKey (code=3072): PCS_NAD83_UTM_zone_17N (WKT of 3072)\n\
         GeographicTypeGeoKey (code=2048): WKT of 2048\n\
         GTModelTypeGeoKey (code=1024): Unrecognized value (9)\n\
         PCSCitationGeoKey (code=3073): 65535\n\
         Unknown (code=0): 0\n\
         GeographicTypeGeoKey (code=2048): GCS_WGS_84 (WKT of 2048)\n\
         GTRasterTypeGeoKey (code=1025): RasterPixelIsPoint (2)"
    );
}

#[test]
fn the_text_of_keys_whose_values_lie_in_the_parameters() {
    let mut g = report_of(&[
        1, 1, 0, 5, 1026, 34737, 8, 0, 2057, 34736, 1, 0, 1025, 7, 1, 1, 2059, 34736, 2, 1, 3073,
        34737, 0, 8,
    ]);
    g.add_ascii_params(&b"NAD|83 x|rest".to_vec());
    g.add_double_params(&vec![0u8; 24], Endianness::LittleEndian);
    assert_eq!(
        text_of(&g),
        "GeoKey Info:\n    Version: 1\n    Key revision: 1.0\n\
         GTCitationGeoKey (code=1026, type=ASCII): NAD83 x\n\
         GeogSemiMajorAxisGeoKey (code=2057, type=Double, count=1): the doubles\
         Unknown tag\n\
         GeogInvFlatteningGeoKey (code=2059, type=Double, count=2): the doubles\n\
         PCSCitationGeoKey (code=3073, type=ASCII): "
    );
}

#[test]
fn the_line_of_a_key_in_each_of_its_forms() {
    let key = |code: u16, value: KeyValue| KeyReport { name: "Name".to_string(), code, value };
    assert_eq!(key_line(&key(7, KeyValue::Ascii(b"some text".to_vec())), "c", "d"), "\nName (code=7, type=ASCII): some text");
    assert_eq!(key_line(&key(7, KeyValue::Ascii(vec![0x61, 0xFF])), "c", "d"), "\nName (code=7, type=ASCII): a\u{FFFD}");
    assert_eq!(key_line(&key(70, KeyValue::Doubles(vec![1, 2, 3])), "c", "[1.0, 2.0, 3.0]"), "\nName (code=70, type=Double, count=3): [1.0, 2.0, 3.0]");
    assert_eq!(key_line(&key(700, KeyValue::Doubles(vec![])), "c", ""), "\nName (code=700, type=Double, count=0): ");
    assert_eq!(key_line(&key(3072, KeyValue::Keyword { name: Some("word"), value: 5 }), "c", "d"), "\nName (code=3072): word (c)");
    assert_eq!(key_line(&key(2048, KeyValue::Keyword { name: Some("word"), value: 5 }), "c", "d"), "\nName (code=2048): word (c)");
    assert_eq!(key_line(&key(2049, KeyValue::Keyword { name: Some("word"), value: 5 }), "c", "d"), "\nName (code=2049): word (5)");
    assert_eq!(key_line(&key(3072, KeyValue::Keyword { name: None, value: 5 }), "c", "d"), "\nName (code=3072): c");
    assert_eq!(key_line(&key(2048, KeyValue::Keyword { name: None, value: 5 }), "", "d"), "\nName (code=2048): ");
    assert_eq!(key_line(&key(1024, KeyValue::Keyword { name: None, value: 65535 }), "c", "d"), "\nName (code=1024): Unrecognized value (65535)");
    assert_eq!(key_line(&key(0, KeyValue::Plain(100)), "c", "d"), "\nName (code=0): 100");
    assert_eq!(key_line(&key(65535, KeyValue::Plain(0)), "c", "d"), "\nName (code=65535): 0");
    assert_eq!(key_line(&key(9, KeyValue::UnknownLocation), "c", "d"), "Unknown tag");
}

#[test]
fn the_text_of_a_report_takes_the_texts_of_each_key() {
    let report = Some(GeoKeyReport {
        version: 2,
        revision: 3,
        minor_revision: 4,
        keys: vec![
            KeyReport { name: "A".to_string(), code: 3072, value: KeyValue::Keyword { name: None, value: 1 } },
            KeyReport { name: "B".to_string(), code: 1, value: KeyValue::Doubles(vec![0]) },
            KeyReport { name: "C".to_string(), code: 2048, value: KeyValue::Keyword { name: Some("k"), value: 2 } },
        ],
    });
    let crs = vec!["first".to_string(), "unused".to_string(), "third".to_string()];
    let doubles = vec!["unused".to_string(), "0".to_string(), "unused".to_string()];
    assert_eq!(
        report_text(&report, &crs, &doubles),
        "GeoKey Info:\n    Version: 2\n    Key revision: 3.4\nA (code=3072): first\nB (code=1, type=Double, count=1): 0\nC (code=2048): k (third)"
    );
}

#[test]
fn a_key_wants_the_text_of_a_coordinate_system_or_not() {
    let key = |code: u16, value: KeyValue| KeyReport { name: "Name".to_string(), code, value };
    assert!(wants_crs(&key(3072, KeyValue::Keyword { name: None, value: 1 })));
    assert!(wants_crs(&key(2048, KeyValue::Keyword { name: Some("x"), value: 1 })));
    assert!(!wants_crs(&key(1024, KeyValue::Keyword { name: Some("x"), value: 1 })));
    assert!(!wants_crs(&key(3072, KeyValue::Plain(1))));
    assert!(!wants_crs(&key(2048, KeyValue::UnknownLocation)));
}
