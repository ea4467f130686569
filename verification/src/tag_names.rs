//! The names of the TIFF tags and GeoKeys.

use std::collections::HashMap;
use vstd::prelude::*;
use vstd::string::*;
use crate::tiff_tag::TiffTag;

verus! {

/// `m` holds exactly the codes that `names` lists, each with a tag that
/// carries the code and its name.
pub open spec fn holds_tags(m: Map<u16, TiffTag>, names: spec_fn(u16) -> Option<Seq<char>>) -> bool {
    forall|code: u16|
        #![trigger m.contains_key(code)]
        #![trigger m[code]]
        {
            &&& m.contains_key(code) <==> names(code) is Some
            &&& m.contains_key(code) ==> m[code].name@ == names(code).unwrap() && m[code].code
                == code
        }
}

/// `after` is `before` with a tag for each code that `names` lists from `lo`
/// to `hi` added; every other entry is as it was.
pub open spec fn extends_tags(
    before: Map<u16, TiffTag>,
    after: Map<u16, TiffTag>,
    lo: u16,
    hi: u16,
    names: spec_fn(u16) -> Option<Seq<char>>,
) -> bool {
    forall|code: u16|
        {
            let listed = lo <= code <= hi && names(code) is Some;
            {
                &&& #[trigger] after.contains_key(code) <==> before.contains_key(code) || listed
                &&& listed ==> after[code].name@ == names(code).unwrap() && after[code].code
                    == code
                &&& !listed && before.contains_key(code) ==> after[code] == before[code]
            }
        }
}

/// The name of the TIFF tag or GeoKey with the given code, if it is a known one.
pub open spec fn tag_name(code: u16) -> Option<Seq<char>> {
    if code <= 2056 {
        tag_names_254_to_2056(code)
    } else {
        tag_names_2057_to_50844(code)
    }
}

/// The tag and key names for the codes 254 to 2056.
pub open spec fn tag_names_254_to_2056(code: u16) -> Option<Seq<char>> {
    match code {
        254 => Some("NewSubFileType"@),
        256 => Some("ImageWidth"@),
        257 => Some("ImageLength"@),
        258 => Some("BitsPerSample"@),
        259 => Some("Compression"@),
        262 => Some("PhotometricInterpretation"@),
        266 => Some("FillOrder"@),
        269 => Some("DocumentName"@),
        270 => Some("ImageDescription"@),
        271 => Some("Make"@),
        272 => Some("Model"@),
        273 => Some("StripOffsets"@),
        274 => Some("Orientation"@),
        277 => Some("SamplesPerPixel"@),
        278 => Some("RowsPerStrip"@),
        279 => Some("StripByteCounts"@),
        280 => Some("MinSampleValue"@),
        281 => Some("MaxSampleValue"@),
        282 => Some("XResolution"@),
        283 => Some("YResolution"@),
        284 => Some("PlanarConfiguration"@),
        296 => Some("ResolutionUnit"@),
        305 => Some("Software"@),
        306 => Some("DateTime"@),
        317 => Some("Predictor"@),
        320 => Some("ColorMap"@),
        322 => Some("TileWidth"@),
        323 => Some("TileLength"@),
        324 => Some("TileOffsets"@),
        325 => Some("TileByteCounts"@),
        338 => Some("ExtraSamples"@),
        339 => Some("SampleFormat"@),
        340 => Some("SMinSampleValue"@),
        341 => Some("SMaxSampleValue"@),
        347 => Some("JPEGTables"@),
        532 => Some("ReferenceBlackWhite"@),
        1024 => Some("GTModelTypeGeoKey"@),
        1025 => Some("GTRasterTypeGeoKey"@),
        1026 => Some("GTCitationGeoKey"@),
        2048 => Some("GeographicTypeGeoKey"@),
        2049 => Some("GeogCitationGeoKey"@),
        2050 => Some("GeogGeodeticDatumGeoKey"@),
        2051 => Some("GeogPrimeMeridianGeoKey"@),
        2052 => Some("GeogLinearUnitsGeoKey"@),
        2053 => Some("GeogLinearUnitSizeGeoKey"@),
        2054 => Some("GeogAngularUnitsGeoKey"@),
        2055 => Some("GeogAngularUnitSizeGeoKey"@),
        2056 => Some("GeogEllipsoidGeoKey"@),
        _ => None,
    }
}

/// The tag and key names for the codes 2057 to 50844.
pub open spec fn tag_names_2057_to_50844(code: u16) -> Option<Seq<char>> {
    match code {
        2057 => Some("GeogSemiMajorAxisGeoKey"@),
        2058 => Some("GeogSemiMinorAxisGeoKey"@),
        2059 => Some("GeogInvFlatteningGeoKey"@),
        2060 => Some("GeogAzimuthUnitsGeoKey"@),
        2061 => Some("GeogPrimeMeridianLongGeoKey"@),
        3072 => Some("ProjectedCSTypeGeoKey"@),
        3073 => Some("PCSCitationGeoKey"@),
        3074 => Some("ProjectionGeoKey"@),
        3075 => Some("ProjCoordTransGeoKey"@),
        3076 => Some("ProjLinearUnitsGeoKey"@),
        3077 => Some("ProjLinearUnitSizeGeoKey"@),
        3078 => Some("ProjStdParallel1GeoKey"@),
        3079 => Some("ProjStdParallel2GeoKey"@),
        3080 => Some("ProjNatOriginLongGeoKey"@),
        3081 => Some("ProjNatOriginLatGeoKey"@),
        3082 => Some("ProjFalseEastingGeoKey"@),
        3083 => Some("ProjFalseNorthingGeoKey"@),
        3084 => Some("ProjFalseOriginLongGeoKey"@),
        3085 => Some("ProjFalseOriginLatGeoKey"@),
        3086 => Some("ProjFalseOriginEastingGeoKey"@),
        3087 => Some("ProjFalseOriginNorthingGeoKey"@),
        3088 => Some("ProjCenterLongGeoKey"@),
        3089 => Some("ProjCenterLatGeoKey"@),
        3090 => Some("ProjCenterEastingGeoKey"@),
        3091 => Some("ProjFalseOriginNorthingGeoKey"@),
        3092 => Some("ProjScaleAtNatOriginGeoKey"@),
        3093 => Some("ProjScaleAtCenterGeoKey"@),
        3094 => Some("ProjAzimuthAngleGeoKey"@),
        3095 => Some("ProjStraightVertPoleLongGeoKey"@),
        4096 => Some("VerticalCSTypeGeoKey"@),
        4097 => Some("VerticalCitationGeoKey"@),
        4098 => Some("VerticalDatumGeoKey"@),
        4099 => Some("VerticalUnitsGeoKey"@),
        33550 => Some("ModelPixelScaleTag"@),
        33922 => Some("ModelTiepointTag"@),
        34264 => Some("ModelTransformationTag"@),
        34377 => Some("Photoshop"@),
        34735 => Some("GeoKeyDirectoryTag"@),
        34736 => Some("GeoDoubleParamsTag"@),
        34737 => Some("GeoAsciiParamsTag"@),
        42112 => Some("GDAL_METADATA"@),
        42113 => Some("GDAL_NODATA"@),
        50844 => Some("RPCCoefficientTag"@),
        _ => None,
    }
}

fn tag(name: &'static str, code: u16) -> (t: TiffTag)
    ensures
        t.name@ == name@,
        t.code == code,
{
    TiffTag { name: String::from_str(name), code }
}

fn add_tag_names_254_to_2056(m: &mut HashMap<u16, TiffTag>)
    ensures
        extends_tags(old(m)@, final(m)@, 0, 2056, |code: u16| tag_names_254_to_2056(code)),
{
    broadcast use vstd::std_specs::hash::group_hash_axioms;

    m.insert(254, tag("NewSubFileType", 254));
    m.insert(256, tag("ImageWidth", 256));
    m.insert(257, tag("ImageLength", 257));
    m.insert(258, tag("BitsPerSample", 258));
    m.insert(259, tag("Compression", 259));
    m.insert(262, tag("PhotometricInterpretation", 262));
    m.insert(266, tag("FillOrder", 266));
    m.insert(269, tag("DocumentName", 269));
    m.insert(270, tag("ImageDescription", 270));
    m.insert(271, tag("Make", 271));
    m.insert(272, tag("Model", 272));
    m.insert(273, tag("StripOffsets", 273));
    m.insert(274, tag("Orientation", 274));
    m.insert(277, tag("SamplesPerPixel", 277));
    m.insert(278, tag("RowsPerStrip", 278));
    m.insert(279, tag("StripByteCounts", 279));
    m.insert(280, tag("MinSampleValue", 280));
    m.insert(281, tag("MaxSampleValue", 281));
    m.insert(282, tag("XResolution", 282));
    m.insert(283, tag("YResolution", 283));
    m.insert(284, tag("PlanarConfiguration", 284));
    m.insert(296, tag("ResolutionUnit", 296));
    m.insert(305, tag("Software", 305));
    m.insert(306, tag("DateTime", 306));
    m.insert(317, tag("Predictor", 317));
    m.insert(320, tag("ColorMap", 320));
    m.insert(322, tag("TileWidth", 322));
    m.insert(323, tag("TileLength", 323));
    m.insert(324, tag("TileOffsets", 324));
    m.insert(325, tag("TileByteCounts", 325));
    m.insert(338, tag("ExtraSamples", 338));
    m.insert(339, tag("SampleFormat", 339));
    m.insert(340, tag("SMinSampleValue", 340));
    m.insert(341, tag("SMaxSampleValue", 341));
    m.insert(347, tag("JPEGTables", 347));
    m.insert(532, tag("ReferenceBlackWhite", 532));
    m.insert(1024, tag("GTModelTypeGeoKey", 1024));
    m.insert(1025, tag("GTRasterTypeGeoKey", 1025));
    m.insert(1026, tag("GTCitationGeoKey", 1026));
    m.insert(2048, tag("GeographicTypeGeoKey", 2048));
    m.insert(2049, tag("GeogCitationGeoKey", 2049));
    m.insert(2050, tag("GeogGeodeticDatumGeoKey", 2050));
    m.insert(2051, tag("GeogPrimeMeridianGeoKey", 2051));
    m.insert(2052, tag("GeogLinearUnitsGeoKey", 2052));
    m.insert(2053, tag("GeogLinearUnitSizeGeoKey", 2053));
    m.insert(2054, tag("GeogAngularUnitsGeoKey", 2054));
    m.insert(2055, tag("GeogAngularUnitSizeGeoKey", 2055));
    m.insert(2056, tag("GeogEllipsoidGeoKey", 2056));
}

fn add_tag_names_2057_to_50844(m: &mut HashMap<u16, TiffTag>)
    ensures
        extends_tags(old(m)@, final(m)@, 2057, 65535, |code: u16| tag_names_2057_to_50844(code)),
{
    broadcast use vstd::std_specs::hash::group_hash_axioms;

    m.insert(2057, tag("GeogSemiMajorAxisGeoKey", 2057));
    m.insert(2058, tag("GeogSemiMinorAxisGeoKey", 2058));
    m.insert(2059, tag("GeogInvFlatteningGeoKey", 2059));
    m.insert(2060, tag("GeogAzimuthUnitsGeoKey", 2060));
    m.insert(2061, tag("GeogPrimeMeridianLongGeoKey", 2061));
    m.insert(3072, tag("ProjectedCSTypeGeoKey", 3072));
    m.insert(3073, tag("PCSCitationGeoKey", 3073));
    m.insert(3074, tag("ProjectionGeoKey", 3074));
    m.insert(3075, tag("ProjCoordTransGeoKey", 3075));
    m.insert(3076, tag("ProjLinearUnitsGeoKey", 3076));
    m.insert(3077, tag("ProjLinearUnitSizeGeoKey", 3077));
    m.insert(3078, tag("ProjStdParallel1GeoKey", 3078));
    m.insert(3079, tag("ProjStdParallel2GeoKey", 3079));
    m.insert(3080, tag("ProjNatOriginLongGeoKey", 3080));
    m.insert(3081, tag("ProjNatOriginLatGeoKey", 3081));
    m.insert(3082, tag("ProjFalseEastingGeoKey", 3082));
    m.insert(3083, tag("ProjFalseNorthingGeoKey", 3083));
    m.insert(3084, tag("ProjFalseOriginLongGeoKey", 3084));
    m.insert(3085, tag("ProjFalseOriginLatGeoKey", 3085));
    m.insert(3086, tag("ProjFalseOriginEastingGeoKey", 3086));
    m.insert(3087, tag("ProjFalseOriginNorthingGeoKey", 3087));
    m.insert(3088, tag("ProjCenterLongGeoKey", 3088));
    m.insert(3089, tag("ProjCenterLatGeoKey", 3089));
    m.insert(3090, tag("ProjCenterEastingGeoKey", 3090));
    m.insert(3091, tag("ProjFalseOriginNorthingGeoKey", 3091));
    m.insert(3092, tag("ProjScaleAtNatOriginGeoKey", 3092));
    m.insert(3093, tag("ProjScaleAtCenterGeoKey", 3093));
    m.insert(3094, tag("ProjAzimuthAngleGeoKey", 3094));
    m.insert(3095, tag("ProjStraightVertPoleLongGeoKey", 3095));
    m.insert(4096, tag("VerticalCSTypeGeoKey", 4096));
    m.insert(4097, tag("VerticalCitationGeoKey", 4097));
    m.insert(4098, tag("VerticalDatumGeoKey", 4098));
    m.insert(4099, tag("VerticalUnitsGeoKey", 4099));
    m.insert(33550, tag("ModelPixelScaleTag", 33550));
    m.insert(33922, tag("ModelTiepointTag", 33922));
    m.insert(34264, tag("ModelTransformationTag", 34264));
    m.insert(34377, tag("Photoshop", 34377));
    m.insert(34735, tag("GeoKeyDirectoryTag", 34735));
    m.insert(34736, tag("GeoDoubleParamsTag", 34736));
    m.insert(34737, tag("GeoAsciiParamsTag", 34737));
    m.insert(42112, tag("GDAL_METADATA", 42112));
    m.insert(42113, tag("GDAL_NODATA", 42113));
    m.insert(50844, tag("RPCCoefficientTag", 50844));
}

/// Builds the table of the known TIFF tags and GeoKeys, by code.
pub fn get_keys_map() -> (k: HashMap<u16, TiffTag>)
    ensures
        holds_tags(k@, |code: u16| tag_name(code)),
{
    let mut k: HashMap<u16, TiffTag> = HashMap::new();
    add_tag_names_254_to_2056(&mut k);
    add_tag_names_2057_to_50844(&mut k);
    k
}

} // verus!
