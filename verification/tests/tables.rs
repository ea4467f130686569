use whitebox_lidar::decimal::decimal_text;
use whitebox_lidar::keyword_tables::{get_field_type_map, get_keyword_map};
use whitebox_lidar::tag_names::get_keys_map;
use whitebox_lidar::tiff_tag::TiffTag;

#[test]
fn unknown_tag_has_name_unknown_and_code_zero() {
    let tag = TiffTag::new_unknown_tag();
    assert_eq!(tag.code, 0);
    assert_eq!(tag.name, "Unknown");
    assert_eq!(tag.get_name(), "Unknown".to_string());
}

#[test]
fn get_name_hands_out_the_name() {
    let tag = TiffTag { name: "ImageWidth".to_string(), code: 256 };
    assert_eq!(tag.get_name(), "ImageWidth");
}

#[test]
fn default_tag_is_empty() {
    let tag = TiffTag::default();
    assert_eq!(tag.name, "");
    assert_eq!(tag.code, 0);
}

#[test]
fn keys_map_lists_the_known_tags() {
    let keys = get_keys_map();
    assert_eq!(keys.len(), 91);
    assert_eq!(keys[&254].name, "NewSubFileType");
    assert_eq!(keys[&256].name, "ImageWidth");
    assert_eq!(keys[&2048].name, "GeographicTypeGeoKey");
    assert_eq!(keys[&3072].name, "ProjectedCSTypeGeoKey");
    assert_eq!(keys[&4099].name, "VerticalUnitsGeoKey");
    assert_eq!(keys[&50844].name, "RPCCoefficientTag");
    assert_eq!(keys[&34377].name, "Photoshop");
    assert!(keys.get(&0).is_none());
    assert!(keys.get(&255).is_none());
    assert!(keys.get(&65535).is_none());
}

#[test]
fn every_tag_carries_its_own_code() {
    let keys = get_keys_map();
    for (code, tag) in keys.iter() {
        assert_eq!(*code, tag.code);
        assert!(!tag.name.is_empty());
    }
}

#[test]
fn keyword_map_has_nineteen_tables() {
    let kw = get_keyword_map();
    assert_eq!(kw.len(), 19);
    let mut codes: Vec<u16> = kw.keys().copied().collect();
    codes.sort();
    assert_eq!(
        codes,
        vec![
            259, 262, 284, 296, 317, 339, 1024, 1025, 2048, 2050, 2051, 2054, 2056, 3072, 3074,
            3075, 3076, 4096, 4099
        ]
    );
}

#[test]
fn keyword_tables_have_their_sizes() {
    let kw = get_keyword_map();
    assert_eq!(kw[&259].len(), 10);
    assert_eq!(kw[&262].len(), 8);
    assert_eq!(kw[&284].len(), 2);
    assert_eq!(kw[&296].len(), 3);
    assert_eq!(kw[&317].len(), 2);
    assert_eq!(kw[&339].len(), 4);
    assert_eq!(kw[&1024].len(), 3);
    assert_eq!(kw[&1025].len(), 2);
    assert_eq!(kw[&2048].len(), 168);
    assert_eq!(kw[&2050].len(), 155);
    assert_eq!(kw[&2051].len(), 11);
    assert_eq!(kw[&2054].len(), 8);
    assert_eq!(kw[&2056].len(), 35);
    assert_eq!(kw[&3072].len(), 974);
    assert_eq!(kw[&3074].len(), 298);
    assert_eq!(kw[&3075].len(), 27);
    assert_eq!(kw[&3076].len(), 15);
    assert_eq!(kw[&4096].len(), 39);
    assert_eq!(kw[&4099].len(), 15);
}

#[test]
fn keyword_map_names_values() {
    let kw = get_keyword_map();
    assert_eq!(kw[&259][&1], "None");
    assert_eq!(kw[&259][&5], "LZW");
    assert_eq!(kw[&259][&32946], "DeflateOld");
    assert_eq!(kw[&262][&0], "WhiteIsZero");
    assert_eq!(kw[&262][&2], "RGB");
    assert_eq!(kw[&296][&2], "Dots per inch");
    assert_eq!(kw[&339][&3], "Floating point data");
    assert_eq!(kw[&1024][&1], "ModelTypeProjected");
    assert_eq!(kw[&1025][&2], "RasterPixelIsPoint");
    assert_eq!(kw[&2048][&4201], "GCS_Adindan");
    assert_eq!(kw[&2048][&4202], "GCS_AGD66");
    assert_eq!(kw[&4096][&5106], "VertCS_Caspian_Sea");
    assert_eq!(kw[&4096][&5030], "VertCS_WGS_84_ellipsoid");
    assert_eq!(kw[&4099][&9001], "Linear_Meter");
    assert_eq!(kw[&4099][&9015], "Linear_Mile_International_Nautical");
    assert_eq!(kw[&3076][&9002], "Linear_Foot");
}

#[test]
fn keyword_map_leaves_out_what_no_table_lists() {
    let kw = get_keyword_map();
    assert!(kw.get(&0).is_none());
    assert!(kw.get(&260).is_none());
    assert!(kw[&259].get(&9).is_none());
    assert!(kw[&259].get(&0).is_none());
    assert!(kw[&2048].get(&4200).is_none());
    assert!(kw[&4099].get(&9016).is_none());
    assert!(kw[&3072].get(&0).is_none());
}

#[test]
fn field_type_map_names_the_field_types() {
    let types = get_field_type_map();
    assert_eq!(types.len(), 15);
    assert_eq!(types[&1], "DT_Byte");
    assert_eq!(types[&2], "DT_ASCII");
    assert_eq!(types[&3], "DT_Short");
    assert_eq!(types[&4], "DT_Long");
    assert_eq!(types[&5], "DT_Rational");
    assert_eq!(types[&6], "DT_Sbyte");
    assert_eq!(types[&7], "DT_Undefined");
    assert_eq!(types[&8], "DT_Sshort");
    assert_eq!(types[&9], "DT_Slong");
    assert_eq!(types[&10], "DT_Srational");
    assert_eq!(types[&11], "DT_Float");
    assert_eq!(types[&12], "DT_Double");
    assert_eq!(types[&16], "DT_Long8");
    assert_eq!(types[&17], "DT_Slong8");
    assert_eq!(types[&18], "DT_Ifd8");
    assert!(types.get(&0).is_none());
    assert!(types.get(&13).is_none());
    assert!(types.get(&19).is_none());
}

#[test]
fn keyword_map_names_projected_systems() {
    let kw = get_keyword_map();
    assert_eq!(kw[&3072][&26917], "PCS_NAD83_UTM_zone_17N");
    assert_eq!(kw[&3072][&32601], "PCS_WGS84_UTM_zone_1N");
    assert_eq!(kw[&3075][&1], "CT_TransverseMercator");
}

#[test]
fn a_tag_says_its_name_and_its_code() {
    assert_eq!(TiffTag { name: "ImageWidth".to_string(), code: 256 }.to_text(), "Name: ImageWidth, Code: 256");
    assert_eq!(TiffTag::new_unknown_tag().to_text(), "Name: Unknown, Code: 0");
    assert_eq!(TiffTag { name: "".to_string(), code: 65535 }.to_text(), "Name: , Code: 65535");
    assert_eq!(TiffTag { name: "x".to_string(), code: 10 }.to_text(), "Name: x, Code: 10");
}

#[test]
fn numbers_are_written_with_their_decimal_digits() {
    assert_eq!(decimal_text(0), "0");
    assert_eq!(decimal_text(7), "7");
    assert_eq!(decimal_text(10), "10");
    assert_eq!(decimal_text(109), "109");
    assert_eq!(decimal_text(65535), "65535");
    assert_eq!(decimal_text(1234567890), "1234567890");
    assert_eq!(decimal_text(u64::MAX), "18446744073709551615");
}
