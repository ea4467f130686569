//! The keyword tables: for each TIFF tag or GeoKey whose value is a code,
//! the names of the codes.

use std::collections::HashMap;
use vstd::prelude::*;
use crate::datum_names::{geodetic_datum_map, geodetic_datum_name};
use crate::geographic_names::{geographic_type_map, geographic_type_name};
use crate::projected_names::{projected_cs_type_map, projected_cs_type_name};
use crate::projection_names::{proj_map, projection_name};

verus! {

/// `m` holds exactly the codes that `names` lists, each with its name.
pub open spec fn holds_names(
    m: Map<u16, &'static str>,
    names: spec_fn(u16) -> Option<Seq<char>>,
) -> bool {
    forall|code: u16|
        #![trigger m.contains_key(code)]
        #![trigger m[code]]
        {
            &&& m.contains_key(code) <==> names(code) is Some
            &&& m.contains_key(code) ==> m[code]@ == names(code).unwrap()
        }
}

/// `after` is `before` with the codes that `names` lists from `lo` to `hi`
/// added, each with its name; every other entry is as it was.
pub open spec fn extends_names(
    before: Map<u16, &'static str>,
    after: Map<u16, &'static str>,
    lo: u16,
    hi: u16,
    names: spec_fn(u16) -> Option<Seq<char>>,
) -> bool {
    forall|code: u16|
        {
            let listed = lo <= code <= hi && names(code) is Some;
            {
                &&& #[trigger] after.contains_key(code) <==> before.contains_key(code) || listed
                &&& listed ==> after[code]@ == names(code).unwrap()
                &&& !listed && before.contains_key(code) ==> after[code] == before[code]
            }
        }
}

/// The name of the compression scheme with the given code, if the table lists it.
pub open spec fn compression_name(code: u16) -> Option<Seq<char>> {
    match code {
        1 => Some("None"@),
        2 => Some("CCITT"@),
        3 => Some("G3"@),
        4 => Some("G4"@),
        5 => Some("LZW"@),
        6 => Some("JPEGOld"@),
        7 => Some("JPEG"@),
        8 => Some("Deflate"@),
        32773 => Some("PackBits"@),
        32946 => Some("DeflateOld"@),
        _ => None,
    }
}

fn compression_map() -> (m: HashMap<u16, &'static str>)
    ensures
        holds_names(m@, |code: u16| compression_name(code)),
{
    broadcast use vstd::std_specs::hash::group_hash_axioms;

    let mut m: HashMap<u16, &'static str> = HashMap::new();
    m.insert(1, "None");
    m.insert(2, "CCITT");
    m.insert(3, "G3");
    m.insert(4, "G4");
    m.insert(5, "LZW");
    m.insert(6, "JPEGOld");
    m.insert(7, "JPEG");
    m.insert(8, "Deflate");
    m.insert(32773, "PackBits");
    m.insert(32946, "DeflateOld");
    m
}

/// The name of the photometric interpretation with the given code, if the table lists it.
pub open spec fn photometric_name(code: u16) -> Option<Seq<char>> {
    match code {
        0 => Some("WhiteIsZero"@),
        1 => Some("BlackIsZero"@),
        2 => Some("RGB"@),
        3 => Some("Paletted"@),
        4 => Some("TransMask"@),
        5 => Some("pCMYK"@),
        6 => Some("pYCbCr"@),
        7 => Some("pCIELab"@),
        _ => None,
    }
}

fn photometric_map() -> (m: HashMap<u16, &'static str>)
    ensures
        holds_names(m@, |code: u16| photometric_name(code)),
{
    broadcast use vstd::std_specs::hash::group_hash_axioms;

    let mut m: HashMap<u16, &'static str> = HashMap::new();
    m.insert(0, "WhiteIsZero");
    m.insert(1, "BlackIsZero");
    m.insert(2, "RGB");
    m.insert(3, "Paletted");
    m.insert(4, "TransMask");
    m.insert(5, "pCMYK");
    m.insert(6, "pYCbCr");
    m.insert(7, "pCIELab");
    m
}

/// The name of the planar configuration with the given code, if the table lists it.
pub open spec fn planar_configuration_name(code: u16) -> Option<Seq<char>> {
    match code {
        1 => Some("Contiguous"@),
        2 => Some("Separate"@),
        _ => None,
    }
}

fn planar_configuration_map() -> (m: HashMap<u16, &'static str>)
    ensures
        holds_names(m@, |code: u16| planar_configuration_name(code)),
{
    broadcast use vstd::std_specs::hash::group_hash_axioms;

    let mut m: HashMap<u16, &'static str> = HashMap::new();
    m.insert(1, "Contiguous");
    m.insert(2, "Separate");
    m
}

/// The name of the resolution unit with the given code, if the table lists it.
pub open spec fn resolution_unit_name(code: u16) -> Option<Seq<char>> {
    match code {
        1 => Some("None"@),
        2 => Some("Dots per inch"@),
        3 => Some("Dots per centimeter"@),
        _ => None,
    }
}

fn resolution_unit_map() -> (m: HashMap<u16, &'static str>)
    ensures
        holds_names(m@, |code: u16| resolution_unit_name(code)),
{
    broadcast use vstd::std_specs::hash::group_hash_axioms;

    let mut m: HashMap<u16, &'static str> = HashMap::new();
    m.insert(1, "None");
    m.insert(2, "Dots per inch");
    m.insert(3, "Dots per centimeter");
    m
}

/// The name of the predictor with the given code, if the table lists it.
pub open spec fn predictor_name(code: u16) -> Option<Seq<char>> {
    match code {
        1 => Some("None"@),
        2 => Some("Horizontal"@),
        _ => None,
    }
}

fn predictor_map() -> (m: HashMap<u16, &'static str>)
    ensures
        holds_names(m@, |code: u16| predictor_name(code)),
{
    broadcast use vstd::std_specs::hash::group_hash_axioms;

    let mut m: HashMap<u16, &'static str> = HashMap::new();
    m.insert(1, "None");
    m.insert(2, "Horizontal");
    m
}

/// The name of the sample format with the given code, if the table lists it.
pub open spec fn sample_format_name(code: u16) -> Option<Seq<char>> {
    match code {
        1 => Some("Unsigned integer data"@),
        2 => Some("Signed integer data"@),
        3 => Some("Floating point data"@),
        4 => Some("Undefined data format"@),
        _ => None,
    }
}

fn sample_format_map() -> (m: HashMap<u16, &'static str>)
    ensures
        holds_names(m@, |code: u16| sample_format_name(code)),
{
    broadcast use vstd::std_specs::hash::group_hash_axioms;

    let mut m: HashMap<u16, &'static str> = HashMap::new();
    m.insert(1, "Unsigned integer data");
    m.insert(2, "Signed integer data");
    m.insert(3, "Floating point data");
    m.insert(4, "Undefined data format");
    m
}

/// The name of the model type with the given code, if the table lists it.
pub open spec fn model_type_name(code: u16) -> Option<Seq<char>> {
    match code {
        1 => Some("ModelTypeProjected"@),
        2 => Some("ModelTypeGeographic"@),
        3 => Some("ModelTypeGeocentric"@),
        _ => None,
    }
}

fn model_type_map() -> (m: HashMap<u16, &'static str>)
    ensures
        holds_names(m@, |code: u16| model_type_name(code)),
{
    broadcast use vstd::std_specs::hash::group_hash_axioms;

    let mut m: HashMap<u16, &'static str> = HashMap::new();
    m.insert(1, "ModelTypeProjected");
    m.insert(2, "ModelTypeGeographic");
    m.insert(3, "ModelTypeGeocentric");
    m
}

/// The name of the raster type with the given code, if the table lists it.
pub open spec fn raster_type_name(code: u16) -> Option<Seq<char>> {
    match code {
        1 => Some("RasterPixelIsArea"@),
        2 => Some("RasterPixelIsPoint"@),
        _ => None,
    }
}

fn raster_type_map() -> (m: HashMap<u16, &'static str>)
    ensures
        holds_names(m@, |code: u16| raster_type_name(code)),
{
    broadcast use vstd::std_specs::hash::group_hash_axioms;

    let mut m: HashMap<u16, &'static str> = HashMap::new();
    m.insert(1, "RasterPixelIsArea");
    m.insert(2, "RasterPixelIsPoint");
    m
}

/// The name of the prime meridian with the given code, if the table lists it.
pub open spec fn prime_meridian_name(code: u16) -> Option<Seq<char>> {
    match code {
        8901 => Some("PM_Greenwich"@),
        8902 => Some("PM_Lisbon"@),
        8903 => Some("PM_Paris"@),
        8904 => Some("PM_Bogota"@),
        8905 => Some("PM_Madrid"@),
        8906 => Some("PM_Rome"@),
        8907 => Some("PM_Bern"@),
        8908 => Some("PM_Jakarta"@),
        8909 => Some("PM_Ferro"@),
        8910 => Some("PM_Brussels"@),
        8911 => Some("PM_Stockholm"@),
        _ => None,
    }
}

fn geog_prime_meridian_map() -> (m: HashMap<u16, &'static str>)
    ensures
        holds_names(m@, |code: u16| prime_meridian_name(code)),
{
    broadcast use vstd::std_specs::hash::group_hash_axioms;

    let mut m: HashMap<u16, &'static str> = HashMap::new();
    m.insert(8901, "PM_Greenwich");
    m.insert(8902, "PM_Lisbon");
    m.insert(8903, "PM_Paris");
    m.insert(8904, "PM_Bogota");
    m.insert(8905, "PM_Madrid");
    m.insert(8906, "PM_Rome");
    m.insert(8907, "PM_Bern");
    m.insert(8908, "PM_Jakarta");
    m.insert(8909, "PM_Ferro");
    m.insert(8910, "PM_Brussels");
    m.insert(8911, "PM_Stockholm");
    m
}

/// The name of the angular unit with the given code, if the table lists it.
pub open spec fn angular_unit_name(code: u16) -> Option<Seq<char>> {
    match code {
        9101 => Some("Angular_Radian"@),
        9102 => Some("Angular_Degree"@),
        9103 => Some("Angular_Arc_Minute"@),
        9104 => Some("Angular_Arc_Second"@),
        9105 => Some("Angular_Grad"@),
        9106 => Some("Angular_Gon"@),
        9107 => Some("Angular_DMS"@),
        9108 => Some("Angular_DMS_Hemisphere"@),
        _ => None,
    }
}

fn geog_angular_units_map() -> (m: HashMap<u16, &'static str>)
    ensures
        holds_names(m@, |code: u16| angular_unit_name(code)),
{
    broadcast use vstd::std_specs::hash::group_hash_axioms;

    let mut m: HashMap<u16, &'static str> = HashMap::new();
    m.insert(9101, "Angular_Radian");
    m.insert(9102, "Angular_Degree");
    m.insert(9103, "Angular_Arc_Minute");
    m.insert(9104, "Angular_Arc_Second");
    m.insert(9105, "Angular_Grad");
    m.insert(9106, "Angular_Gon");
    m.insert(9107, "Angular_DMS");
    m.insert(9108, "Angular_DMS_Hemisphere");
    m
}

/// The name of the ellipsoid with the given code, if the table lists it.
pub open spec fn ellipsoid_name(code: u16) -> Option<Seq<char>> {
    match code {
        7001 => Some("Ellipse_Airy_1830"@),
        7002 => Some("Ellipse_Airy_Modified_1849"@),
        7003 => Some("Ellipse_Australian_National_Spheroid"@),
        7004 => Some("Ellipse_Bessel_1841"@),
        7005 => Some("Ellipse_Bessel_Modified"@),
        7006 => Some("Ellipse_Bessel_Namibia"@),
        7007 => Some("Ellipse_Clarke_1858"@),
        7008 => Some("Ellipse_Clarke_1866"@),
        7009 => Some("Ellipse_Clarke_1866_Michigan"@),
        7010 => Some("Ellipse_Clarke_1880_Benoit"@),
        7011 => Some("Ellipse_Clarke_1880_IGN"@),
        7012 => Some("Ellipse_Clarke_1880_RGS"@),
        7013 => Some("Ellipse_Clarke_1880_Arc"@),
        7014 => Some("Ellipse_Clarke_1880_SGA_1922"@),
        7015 => Some("Ellipse_Everest_1830_1937_Adjustment"@),
        7016 => Some("Ellipse_Everest_1830_1967_Definition"@),
        7017 => Some("Ellipse_Everest_1830_1975_Definition"@),
        7018 => Some("Ellipse_Everest_1830_Modified"@),
        7019 => Some("Ellipse_GRS_1980"@),
        7020 => Some("Ellipse_Helmert_1906"@),
        7021 => Some("Ellipse_Indonesian_National_Spheroid"@),
        7022 => Some("Ellipse_International_1924"@),
        7023 => Some("Ellipse_International_1967"@),
        7024 => Some("Ellipse_Krassowsky_1940"@),
        7025 => Some("Ellipse_NWL_9D"@),
        7026 => Some("Ellipse_NWL_10D"@),
        7027 => Some("Ellipse_Plessis_1817"@),
        7028 => Some("Ellipse_Struve_1860"@),
        7029 => Some("Ellipse_War_Office"@),
        7030 => Some("Ellipse_WGS_84"@),
        7031 => Some("Ellipse_GEM_10C"@),
        7032 => Some("Ellipse_OSU86F"@),
        7033 => Some("Ellipse_OSU91A"@),
        7034 => Some("Ellipse_Clarke_1880"@),
        7035 => Some("Ellipse_Sphere"@),
        _ => None,
    }
}

fn ellipsoid_map() -> (m: HashMap<u16, &'static str>)
    ensures
        holds_names(m@, |code: u16| ellipsoid_name(code)),
{
    broadcast use vstd::std_specs::hash::group_hash_axioms;

    let mut m: HashMap<u16, &'static str> = HashMap::new();
    m.insert(7001, "Ellipse_Airy_1830");
    m.insert(7002, "Ellipse_Airy_Modified_1849");
    m.insert(7003, "Ellipse_Australian_National_Spheroid");
    m.insert(7004, "Ellipse_Bessel_1841");
    m.insert(7005, "Ellipse_Bessel_Modified");
    m.insert(7006, "Ellipse_Bessel_Namibia");
    m.insert(7007, "Ellipse_Clarke_1858");
    m.insert(7008, "Ellipse_Clarke_1866");
    m.insert(7009, "Ellipse_Clarke_1866_Michigan");
    m.insert(7010, "Ellipse_Clarke_1880_Benoit");
    m.insert(7011, "Ellipse_Clarke_1880_IGN");
    m.insert(7012, "Ellipse_Clarke_1880_RGS");
    m.insert(7013, "Ellipse_Clarke_1880_Arc");
    m.insert(7014, "Ellipse_Clarke_1880_SGA_1922");
    m.insert(7015, "Ellipse_Everest_1830_1937_Adjustment");
    m.insert(7016, "Ellipse_Everest_1830_1967_Definition");
    m.insert(7017, "Ellipse_Everest_1830_1975_Definition");
    m.insert(7018, "Ellipse_Everest_1830_Modified");
    m.insert(7019, "Ellipse_GRS_1980");
    m.insert(7020, "Ellipse_Helmert_1906");
    m.insert(7021, "Ellipse_Indonesian_National_Spheroid");
    m.insert(7022, "Ellipse_International_1924");
    m.insert(7023, "Ellipse_International_1967");
    m.insert(7024, "Ellipse_Krassowsky_1940");
    m.insert(7025, "Ellipse_NWL_9D");
    m.insert(7026, "Ellipse_NWL_10D");
    m.insert(7027, "Ellipse_Plessis_1817");
    m.insert(7028, "Ellipse_Struve_1860");
    m.insert(7029, "Ellipse_War_Office");
    m.insert(7030, "Ellipse_WGS_84");
    m.insert(7031, "Ellipse_GEM_10C");
    m.insert(7032, "Ellipse_OSU86F");
    m.insert(7033, "Ellipse_OSU91A");
    m.insert(7034, "Ellipse_Clarke_1880");
    m.insert(7035, "Ellipse_Sphere");
    m
}

/// The name of the coordinate transformation with the given code, if the table lists it.
pub open spec fn coordinate_transform_name(code: u16) -> Option<Seq<char>> {
    match code {
        1 => Some("CT_TransverseMercator"@),
        2 => Some("CT_TransvMercator_Modified_Alaska"@),
        3 => Some("CT_ObliqueMercator"@),
        4 => Some("CT_ObliqueMercator_Laborde"@),
        5 => Some("CT_ObliqueMercator_Rosenmund"@),
        6 => Some("CT_ObliqueMercator_Spherical"@),
        7 => Some("CT_Mercator"@),
        8 => Some("CT_LambertConfConic_2SP"@),
        9 => Some("CT_LambertConfConic_Helmert"@),
        10 => Some("CT_LambertAzimEqualArea"@),
        11 => Some("CT_AlbersEqualArea"@),
        12 => Some("CT_AzimuthalEquidistant"@),
        13 => Some("CT_EquidistantConic"@),
        14 => Some("CT_Stereographic"@),
        15 => Some("CT_PolarStereographic"@),
        16 => Some("CT_ObliqueStereographic"@),
        17 => Some("CT_Equirectangular"@),
        18 => Some("CT_CassiniSoldner"@),
        19 => Some("CT_Gnomonic"@),
        20 => Some("CT_MillerCylindrical"@),
        21 => Some("CT_Orthographic"@),
        22 => Some("CT_Polyconic"@),
        23 => Some("CT_Robinson"@),
        24 => Some("CT_Sinusoidal"@),
        25 => Some("CT_VanDerGrinten"@),
        26 => Some("CT_NewZealandMapGrid"@),
        27 => Some("CT_TransvMercator_SouthOriented"@),
        _ => None,
    }
}

fn proj_coord_trans_map() -> (m: HashMap<u16, &'static str>)
    ensures
        holds_names(m@, |code: u16| coordinate_transform_name(code)),
{
    broadcast use vstd::std_specs::hash::group_hash_axioms;

    let mut m: HashMap<u16, &'static str> = HashMap::new();
    m.insert(1, "CT_TransverseMercator");
    m.insert(2, "CT_TransvMercator_Modified_Alaska");
    m.insert(3, "CT_ObliqueMercator");
    m.insert(4, "CT_ObliqueMercator_Laborde");
    m.insert(5, "CT_ObliqueMercator_Rosenmund");
    m.insert(6, "CT_ObliqueMercator_Spherical");
    m.insert(7, "CT_Mercator");
    m.insert(8, "CT_LambertConfConic_2SP");
    m.insert(9, "CT_LambertConfConic_Helmert");
    m.insert(10, "CT_LambertAzimEqualArea");
    m.insert(11, "CT_AlbersEqualArea");
    m.insert(12, "CT_AzimuthalEquidistant");
    m.insert(13, "CT_EquidistantConic");
    m.insert(14, "CT_Stereographic");
    m.insert(15, "CT_PolarStereographic");
    m.insert(16, "CT_ObliqueStereographic");
    m.insert(17, "CT_Equirectangular");
    m.insert(18, "CT_CassiniSoldner");
    m.insert(19, "CT_Gnomonic");
    m.insert(20, "CT_MillerCylindrical");
    m.insert(21, "CT_Orthographic");
    m.insert(22, "CT_Polyconic");
    m.insert(23, "CT_Robinson");
    m.insert(24, "CT_Sinusoidal");
    m.insert(25, "CT_VanDerGrinten");
    m.insert(26, "CT_NewZealandMapGrid");
    m.insert(27, "CT_TransvMercator_SouthOriented");
    m
}

/// The name of the linear unit with the given code, if the table lists it.
pub open spec fn linear_unit_name(code: u16) -> Option<Seq<char>> {
    match code {
        9001 => Some("Linear_Meter"@),
        9002 => Some("Linear_Foot"@),
        9003 => Some("Linear_Foot_US_Survey"@),
        9004 => Some("Linear_Foot_Modified_American"@),
        9005 => Some("Linear_Foot_Clarke"@),
        9006 => Some("Linear_Foot_Indian"@),
        9007 => Some("Linear_Link"@),
        9008 => Some("Linear_Link_Benoit"@),
        9009 => Some("Linear_Link_Sears"@),
        9010 => Some("Linear_Chain_Benoit"@),
        9011 => Some("Linear_Chain_Sears"@),
        9012 => Some("Linear_Yard_Sears"@),
        9013 => Some("Linear_Yard_Indian"@),
        9014 => Some("Linear_Fathom"@),
        9015 => Some("Linear_Mile_International_Nautical"@),
        _ => None,
    }
}

fn proj_linear_units_map() -> (m: HashMap<u16, &'static str>)
    ensures
        holds_names(m@, |code: u16| linear_unit_name(code)),
{
    broadcast use vstd::std_specs::hash::group_hash_axioms;

    let mut m: HashMap<u16, &'static str> = HashMap::new();
    m.insert(9001, "Linear_Meter");
    m.insert(9002, "Linear_Foot");
    m.insert(9003, "Linear_Foot_US_Survey");
    m.insert(9004, "Linear_Foot_Modified_American");
    m.insert(9005, "Linear_Foot_Clarke");
    m.insert(9006, "Linear_Foot_Indian");
    m.insert(9007, "Linear_Link");
    m.insert(9008, "Linear_Link_Benoit");
    m.insert(9009, "Linear_Link_Sears");
    m.insert(9010, "Linear_Chain_Benoit");
    m.insert(9011, "Linear_Chain_Sears");
    m.insert(9012, "Linear_Yard_Sears");
    m.insert(9013, "Linear_Yard_Indian");
    m.insert(9014, "Linear_Fathom");
    m.insert(9015, "Linear_Mile_International_Nautical");
    m
}

/// The name of the vertical coordinate system with the given code, if the table lists it.
pub open spec fn vertical_cs_type_name(code: u16) -> Option<Seq<char>> {
    match code {
        1127 => Some("Canadian Geodetic Vertical Datum of 2013 (CGVD2013)"@),
        5001 => Some("VertCS_Airy_1830_ellipsoid"@),
        5002 => Some("VertCS_Airy_Modified_1849_ellipsoid"@),
        5003 => Some("VertCS_ANS_ellipsoid"@),
        5004 => Some("VertCS_Bessel_1841_ellipsoid"@),
        5005 => Some("VertCS_Bessel_Modified_ellipsoid"@),
        5006 => Some("VertCS_Bessel_Namibia_ellipsoid"@),
        5007 => Some("VertCS_Clarke_1858_ellipsoid"@),
        5008 => Some("VertCS_Clarke_1866_ellipsoid"@),
        5010 => Some("VertCS_Clarke_1880_Benoit_ellipsoid"@),
        5011 => Some("VertCS_Clarke_1880_IGN_ellipsoid"@),
        5012 => Some("VertCS_Clarke_1880_RGS_ellipsoid"@),
        5013 => Some("VertCS_Clarke_1880_Arc_ellipsoid"@),
        5014 => Some("VertCS_Clarke_1880_SGA_1922_ellipsoid"@),
        5015 => Some("VertCS_Everest_1830_1937_Adjustment_ellipsoid"@),
        5016 => Some("VertCS_Everest_1830_1967_Definition_ellipsoid"@),
        5017 => Some("VertCS_Everest_1830_1975_Definition_ellipsoid"@),
        5018 => Some("VertCS_Everest_1830_Modified_ellipsoid"@),
        5019 => Some("VertCS_GRS_1980_ellipsoid"@),
        5020 => Some("VertCS_Helmert_1906_ellipsoid"@),
        5021 => Some("VertCS_INS_ellipsoid"@),
        5022 => Some("VertCS_International_1924_ellipsoid"@),
        5023 => Some("VertCS_International_1967_ellipsoid"@),
        5024 => Some("VertCS_Krassowsky_1940_ellipsoid"@),
        5025 => Some("VertCS_NWL_9D_ellipsoid"@),
        5026 => Some("VertCS_NWL_10D_ellipsoid"@),
        5027 => Some("VertCS_Plessis_1817_ellipsoid"@),
        5028 => Some("VertCS_Struve_1860_ellipsoid"@),
        5029 => Some("VertCS_War_Office_ellipsoid"@),
        5030 => Some("VertCS_WGS_84_ellipsoid"@),
        5031 => Some("VertCS_GEM_10C_ellipsoid"@),
        5032 => Some("VertCS_OSU86F_ellipsoid"@),
        5033 => Some("VertCS_OSU91A_ellipsoid"@),
        5101 => Some("VertCS_Newlyn"@),
        5102 => Some("VertCS_North_American_Vertical_Datum_1929"@),
        5103 => Some("VertCS_North_American_Vertical_Datum_1988"@),
        5104 => Some("VertCS_Yellow_Sea_1956"@),
        5105 => Some("VertCS_Baltic_Sea"@),
        5106 => Some("VertCS_Caspian_Sea"@),
        _ => None,
    }
}

fn vertical_cs_type_map() -> (m: HashMap<u16, &'static str>)
    ensures
        holds_names(m@, |code: u16| vertical_cs_type_name(code)),
{
    broadcast use vstd::std_specs::hash::group_hash_axioms;

    let mut m: HashMap<u16, &'static str> = HashMap::new();
    m.insert(1127, "Canadian Geodetic Vertical Datum of 2013 (CGVD2013)");
    m.insert(5001, "VertCS_Airy_1830_ellipsoid");
    m.insert(5002, "VertCS_Airy_Modified_1849_ellipsoid");
    m.insert(5003, "VertCS_ANS_ellipsoid");
    m.insert(5004, "VertCS_Bessel_1841_ellipsoid");
    m.insert(5005, "VertCS_Bessel_Modified_ellipsoid");
    m.insert(5006, "VertCS_Bessel_Namibia_ellipsoid");
    m.insert(5007, "VertCS_Clarke_1858_ellipsoid");
    m.insert(5008, "VertCS_Clarke_1866_ellipsoid");
    m.insert(5010, "VertCS_Clarke_1880_Benoit_ellipsoid");
    m.insert(5011, "VertCS_Clarke_1880_IGN_ellipsoid");
    m.insert(5012, "VertCS_Clarke_1880_RGS_ellipsoid");
    m.insert(5013, "VertCS_Clarke_1880_Arc_ellipsoid");
    m.insert(5014, "VertCS_Clarke_1880_SGA_1922_ellipsoid");
    m.insert(5015, "VertCS_Everest_1830_1937_Adjustment_ellipsoid");
    m.insert(5016, "VertCS_Everest_1830_1967_Definition_ellipsoid");
    m.insert(5017, "VertCS_Everest_1830_1975_Definition_ellipsoid");
    m.insert(5018, "VertCS_Everest_1830_Modified_ellipsoid");
    m.insert(5019, "VertCS_GRS_1980_ellipsoid");
    m.insert(5020, "VertCS_Helmert_1906_ellipsoid");
    m.insert(5021, "VertCS_INS_ellipsoid");
    m.insert(5022, "VertCS_International_1924_ellipsoid");
    m.insert(5023, "VertCS_International_1967_ellipsoid");
    m.insert(5024, "VertCS_Krassowsky_1940_ellipsoid");
    m.insert(5025, "VertCS_NWL_9D_ellipsoid");
    m.insert(5026, "VertCS_NWL_10D_ellipsoid");
    m.insert(5027, "VertCS_Plessis_1817_ellipsoid");
    m.insert(5028, "VertCS_Struve_1860_ellipsoid");
    m.insert(5029, "VertCS_War_Office_ellipsoid");
    m.insert(5030, "VertCS_WGS_84_ellipsoid");
    m.insert(5031, "VertCS_GEM_10C_ellipsoid");
    m.insert(5032, "VertCS_OSU86F_ellipsoid");
    m.insert(5033, "VertCS_OSU91A_ellipsoid");
    m.insert(5101, "VertCS_Newlyn");
    m.insert(5102, "VertCS_North_American_Vertical_Datum_1929");
    m.insert(5103, "VertCS_North_American_Vertical_Datum_1988");
    m.insert(5104, "VertCS_Yellow_Sea_1956");
    m.insert(5105, "VertCS_Baltic_Sea");
    m.insert(5106, "VertCS_Caspian_Sea");
    m
}

/// The name of the vertical unit with the given code, if the table lists it.
pub open spec fn vertical_unit_name(code: u16) -> Option<Seq<char>> {
    match code {
        9001 => Some("Linear_Meter"@),
        9002 => Some("Linear_Foot"@),
        9003 => Some("Linear_Foot_US_Survey"@),
        9004 => Some("Linear_Foot_Modified_American"@),
        9005 => Some("Linear_Foot_Clarke"@),
        9006 => Some("Linear_Foot_Indian"@),
        9007 => Some("Linear_Link"@),
        9008 => Some("Linear_Link_Benoit"@),
        9009 => Some("Linear_Link_Sears"@),
        9010 => Some("Linear_Chain_Benoit"@),
        9011 => Some("Linear_Chain_Sears"@),
        9012 => Some("Linear_Yard_Sears"@),
        9013 => Some("Linear_Yard_Indian"@),
        9014 => Some("Linear_Fathom"@),
        9015 => Some("Linear_Mile_International_Nautical"@),
        _ => None,
    }
}

fn vertical_units_map() -> (m: HashMap<u16, &'static str>)
    ensures
        holds_names(m@, |code: u16| vertical_unit_name(code)),
{
    broadcast use vstd::std_specs::hash::group_hash_axioms;

    let mut m: HashMap<u16, &'static str> = HashMap::new();
    m.insert(9001, "Linear_Meter");
    m.insert(9002, "Linear_Foot");
    m.insert(9003, "Linear_Foot_US_Survey");
    m.insert(9004, "Linear_Foot_Modified_American");
    m.insert(9005, "Linear_Foot_Clarke");
    m.insert(9006, "Linear_Foot_Indian");
    m.insert(9007, "Linear_Link");
    m.insert(9008, "Linear_Link_Benoit");
    m.insert(9009, "Linear_Link_Sears");
    m.insert(9010, "Linear_Chain_Benoit");
    m.insert(9011, "Linear_Chain_Sears");
    m.insert(9012, "Linear_Yard_Sears");
    m.insert(9013, "Linear_Yard_Indian");
    m.insert(9014, "Linear_Fathom");
    m.insert(9015, "Linear_Mile_International_Nautical");
    m
}

/// Whether the keyword tables hold a table for the tag or key `key`.
pub open spec fn has_keyword_table(key: u16) -> bool {
    key == 259
    || key == 262
    || key == 284
    || key == 296
    || key == 317
    || key == 339
    || key == 1024
    || key == 1025
    || key == 2048
    || key == 2050
    || key == 2051
    || key == 2054
    || key == 2056
    || key == 3072
    || key == 3074
    || key == 3075
    || key == 3076
    || key == 4096
    || key == 4099
}

/// The name that the keyword tables give to the value `value` of the tag or
/// key `key`, if there is one.
pub open spec fn keyword_name(key: u16, value: u16) -> Option<Seq<char>> {
    match key {
        259 => compression_name(value),
        262 => photometric_name(value),
        284 => planar_configuration_name(value),
        296 => resolution_unit_name(value),
        317 => predictor_name(value),
        339 => sample_format_name(value),
        1024 => model_type_name(value),
        1025 => raster_type_name(value),
        2048 => geographic_type_name(value),
        2050 => geodetic_datum_name(value),
        2051 => prime_meridian_name(value),
        2054 => angular_unit_name(value),
        2056 => ellipsoid_name(value),
        3072 => projected_cs_type_name(value),
        3074 => projection_name(value),
        3075 => coordinate_transform_name(value),
        3076 => linear_unit_name(value),
        4096 => vertical_cs_type_name(value),
        4099 => vertical_unit_name(value),
        _ => None,
    }
}

/// Builds the keyword tables: a map from the code of a tag or key to the
/// table that names its values.
pub fn get_keyword_map() -> (kw: HashMap<u16, HashMap<u16, &'static str>>)
    ensures
        forall|key: u16| #[trigger] kw@.contains_key(key) <==> has_keyword_table(key),
        forall|key: u16, value: u16|
            kw@.contains_key(key) ==> (#[trigger] kw@[key]@.contains_key(value) <==> keyword_name(
                key,
                value,
            ) is Some),
        forall|key: u16, value: u16|
            kw@.contains_key(key) && #[trigger] kw@[key]@.contains_key(value) ==> kw@[key]@[value]@
                == keyword_name(key, value).unwrap(),
{
    broadcast use vstd::std_specs::hash::group_hash_axioms;

    let mut kw: HashMap<u16, HashMap<u16, &'static str>> = HashMap::new();
    kw.insert(259, compression_map());
    kw.insert(262, photometric_map());
    kw.insert(284, planar_configuration_map());
    kw.insert(296, resolution_unit_map());
    kw.insert(317, predictor_map());
    kw.insert(339, sample_format_map());
    kw.insert(1024, model_type_map());
    kw.insert(1025, raster_type_map());
    kw.insert(2048, geographic_type_map());
    kw.insert(2050, geodetic_datum_map());
    kw.insert(2051, geog_prime_meridian_map());
    kw.insert(2054, geog_angular_units_map());
    kw.insert(2056, ellipsoid_map());
    kw.insert(3072, projected_cs_type_map());
    kw.insert(3074, proj_map());
    kw.insert(3075, proj_coord_trans_map());
    kw.insert(3076, proj_linear_units_map());
    kw.insert(4096, vertical_cs_type_map());
    kw.insert(4099, vertical_units_map());
    kw
}

/// The name of the TIFF field type with the given code, if there is one.
pub open spec fn field_type_name(code: u16) -> Option<Seq<char>> {
    match code {
        1 => Some("DT_Byte"@),
        2 => Some("DT_ASCII"@),
        3 => Some("DT_Short"@),
        4 => Some("DT_Long"@),
        5 => Some("DT_Rational"@),
        6 => Some("DT_Sbyte"@),
        7 => Some("DT_Undefined"@),
        8 => Some("DT_Sshort"@),
        9 => Some("DT_Slong"@),
        10 => Some("DT_Srational"@),
        11 => Some("DT_Float"@),
        12 => Some("DT_Double"@),
        16 => Some("DT_Long8"@),
        17 => Some("DT_Slong8"@),
        18 => Some("DT_Ifd8"@),
        _ => None,
    }
}

/// Builds the table of TIFF field type names.
pub fn get_field_type_map() -> (m: HashMap<u16, &'static str>)
    ensures
        holds_names(m@, |code: u16| field_type_name(code)),
{
    broadcast use vstd::std_specs::hash::group_hash_axioms;

    let mut m: HashMap<u16, &'static str> = HashMap::new();
    m.insert(1, "DT_Byte");
    m.insert(2, "DT_ASCII");
    m.insert(3, "DT_Short");
    m.insert(4, "DT_Long");
    m.insert(5, "DT_Rational");
    m.insert(6, "DT_Sbyte");
    m.insert(7, "DT_Undefined");
    m.insert(8, "DT_Sshort");
    m.insert(9, "DT_Slong");
    m.insert(10, "DT_Srational");
    m.insert(11, "DT_Float");
    m.insert(12, "DT_Double");
    m.insert(16, "DT_Long8");
    m.insert(17, "DT_Slong8");
    m.insert(18, "DT_Ifd8");
    m
}

} // verus!
