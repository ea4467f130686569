//! The geodetic datum names that GeoKey 2050 can refer to.

use std::collections::HashMap;
use vstd::prelude::*;
use crate::keyword_tables::{extends_names, holds_names};

verus! {

/// The name of the geodetic datum with the given code, if the table lists it.
pub open spec fn geodetic_datum_name(code: u16) -> Option<Seq<char>> {
    if code <= 6213 {
        geodetic_datum_names_6001_to_6213(code)
    } else if code <= 6261 {
        geodetic_datum_names_6214_to_6261(code)
    } else if code <= 6309 {
        geodetic_datum_names_6262_to_6309(code)
    } else {
        geodetic_datum_names_6310_to_6902(code)
    }
}

/// The geodetic datum names for the codes 6001 to 6213.
pub open spec fn geodetic_datum_names_6001_to_6213(code: u16) -> Option<Seq<char>> {
    match code {
        6001 => Some("DatumE_Airy1830"@),
        6002 => Some("DatumE_AiryModified1849"@),
        6003 => Some("DatumE_AustralianNationalSpheroid"@),
        6004 => Some("DatumE_Bessel1841"@),
        6005 => Some("DatumE_BesselModified"@),
        6006 => Some("DatumE_BesselNamibia"@),
        6007 => Some("DatumE_Clarke1858"@),
        6008 => Some("DatumE_Clarke1866"@),
        6009 => Some("DatumE_Clarke1866Michigan"@),
        6010 => Some("DatumE_Clarke1880_Benoit"@),
        6011 => Some("DatumE_Clarke1880_IGN"@),
        6012 => Some("DatumE_Clarke1880_RGS"@),
        6013 => Some("DatumE_Clarke1880_Arc"@),
        6014 => Some("DatumE_Clarke1880_SGA1922"@),
        6015 => Some("DatumE_Everest1830_1937Adjustment"@),
        6016 => Some("DatumE_Everest1830_1967Definition"@),
        6017 => Some("DatumE_Everest1830_1975Definition"@),
        6018 => Some("DatumE_Everest1830Modified"@),
        6019 => Some("DatumE_GRS1980"@),
        6020 => Some("DatumE_Helmert1906"@),
        6021 => Some("DatumE_IndonesianNationalSpheroid"@),
        6022 => Some("DatumE_International1924"@),
        6023 => Some("DatumE_International1967"@),
        6024 => Some("DatumE_Krassowsky1960"@),
        6025 => Some("DatumE_NWL9D"@),
        6026 => Some("DatumE_NWL10D"@),
        6027 => Some("DatumE_Plessis1817"@),
        6028 => Some("DatumE_Struve1860"@),
        6029 => Some("DatumE_WarOffice"@),
        6030 => Some("DatumE_WGS84"@),
        6031 => Some("DatumE_GEM10C"@),
        6032 => Some("DatumE_OSU86F"@),
        6033 => Some("DatumE_OSU91A"@),
        6034 => Some("DatumE_Clarke1880"@),
        6035 => Some("DatumE_Sphere"@),
        6201 => Some("Datum_Adindan"@),
        6202 => Some("Datum_Australian_Geodetic_Datum_1966"@),
        6203 => Some("Datum_Australian_Geodetic_Datum_1984"@),
        6204 => Some("Datum_Ain_el_Abd_1970"@),
        6205 => Some("Datum_Afgooye"@),
        6206 => Some("Datum_Agadez"@),
        6207 => Some("Datum_Lisbon"@),
        6208 => Some("Datum_Aratu"@),
        6209 => Some("Datum_Arc_1950"@),
        6210 => Some("Datum_Arc_1960"@),
        6211 => Some("Datum_Batavia"@),
        6212 => Some("Datum_Barbados"@),
        6213 => Some("Datum_Beduaram"@),
        _ => None,
    }
}

/// The geodetic datum names for the codes 6214 to 6261.
pub open spec fn geodetic_datum_names_6214_to_6261(code: u16) -> Option<Seq<char>> {
    match code {
        6214 => Some("Datum_Beijing_1954"@),
        6215 => Some("Datum_Reseau_National_Belge_1950"@),
        6216 => Some("Datum_Bermuda_1957"@),
        6217 => Some("Datum_Bern_1898"@),
        6218 => Some("Datum_Bogota"@),
        6219 => Some("Datum_Bukit_Rimpah"@),
        6220 => Some("Datum_Camacupa"@),
        6221 => Some("Datum_Campo_Inchauspe"@),
        6222 => Some("Datum_Cape"@),
        6223 => Some("Datum_Carthage"@),
        6224 => Some("Datum_Chua"@),
        6225 => Some("Datum_Corrego_Alegre"@),
        6226 => Some("Datum_Cote_d_Ivoire"@),
        6227 => Some("Datum_Deir_ez_Zor"@),
        6228 => Some("Datum_Douala"@),
        6229 => Some("Datum_Egypt_1907"@),
        6230 => Some("Datum_European_Datum_1950"@),
        6231 => Some("Datum_European_Datum_1987"@),
        6232 => Some("Datum_Fahud"@),
        6233 => Some("Datum_Gandajika_1970"@),
        6234 => Some("Datum_Garoua"@),
        6235 => Some("Datum_Guyane_Francaise"@),
        6236 => Some("Datum_Hu_Tzu_Shan"@),
        6237 => Some("Datum_Hungarian_Datum_1972"@),
        6238 => Some("Datum_Indonesian_Datum_1974"@),
        6239 => Some("Datum_Indian_1954"@),
        6240 => Some("Datum_Indian_1975"@),
        6241 => Some("Datum_Jamaica_1875"@),
        6242 => Some("Datum_Jamaica_1969"@),
        6243 => Some("Datum_Kalianpur"@),
        6244 => Some("Datum_Kandawala"@),
        6245 => Some("Datum_Kertau"@),
        6246 => Some("Datum_Kuwait_Oil_Company"@),
        6247 => Some("Datum_La_Canoa"@),
        6248 => Some("Datum_Provisional_S_American_Datum_1956"@),
        6249 => Some("Datum_Lake"@),
        6250 => Some("Datum_Leigon"@),
        6251 => Some("Datum_Liberia_1964"@),
        6252 => Some("Datum_Lome"@),
        6253 => Some("Datum_Luzon_1911"@),
        6254 => Some("Datum_Hito_XVIII_1963"@),
        6255 => Some("Datum_Herat_North"@),
        6256 => Some("Datum_Mahe_1971"@),
        6257 => Some("Datum_Makassar"@),
        6258 => Some("Datum_European_Reference_System_1989"@),
        6259 => Some("Datum_Malongo_1987"@),
        6260 => Some("Datum_Manoca"@),
        6261 => Some("Datum_Merchich"@),
        _ => None,
    }
}

/// The geodetic datum names for the codes 6262 to 6309.
pub open spec fn geodetic_datum_names_6262_to_6309(code: u16) -> Option<Seq<char>> {
    match code {
        6262 => Some("Datum_Massawa"@),
        6263 => Some("Datum_Minna"@),
        6264 => Some("Datum_Mhast"@),
        6265 => Some("Datum_Monte_Mario"@),
        6266 => Some("Datum_M_poraloko"@),
        6267 => Some("Datum_North_American_Datum_1927"@),
        6268 => Some("Datum_NAD_Michigan"@),
        6269 => Some("Datum_North_American_Datum_1983"@),
        6270 => Some("Datum_Nahrwan_1967"@),
        6271 => Some("Datum_Naparima_1972"@),
        6272 => Some("Datum_New_Zealand_Geodetic_Datum_1949"@),
        6273 => Some("Datum_NGO_1948"@),
        6274 => Some("Datum_Datum_73"@),
        6275 => Some("Datum_Nouvelle_Triangulation_Francaise"@),
        6276 => Some("Datum_NSWC_9Z_2"@),
        6277 => Some("Datum_OSGB_1936"@),
        6278 => Some("Datum_OSGB_1970_SN"@),
        6279 => Some("Datum_OS_SN_1980"@),
        6280 => Some("Datum_Padang_1884"@),
        6281 => Some("Datum_Palestine_1923"@),
        6282 => Some("Datum_Pointe_Noire"@),
        6283 => Some("Datum_Geocentric_Datum_of_Australia_1994"@),
        6284 => Some("Datum_Pulkovo_1942"@),
        6285 => Some("Datum_Qatar"@),
        6286 => Some("Datum_Qatar_1948"@),
        6287 => Some("Datum_Qornoq"@),
        6288 => Some("Datum_Loma_Quintana"@),
        6289 => Some("Datum_Amersfoort"@),
        6290 => Some("Datum_RT38"@),
        6291 => Some("Datum_South_American_Datum_1969"@),
        6292 => Some("Datum_Sapper_Hill_1943"@),
        6293 => Some("Datum_Schwarzeck"@),
        6294 => Some("Datum_Segora"@),
        6295 => Some("Datum_Serindung"@),
        6296 => Some("Datum_Sudan"@),
        6297 => Some("Datum_Tananarive_1925"@),
        6298 => Some("Datum_Timbalai_1948"@),
        6299 => Some("Datum_TM65"@),
        6300 => Some("Datum_TM75"@),
        6301 => Some("Datum_Tokyo"@),
        6302 => Some("Datum_Trinidad_1903"@),
        6303 => Some("Datum_Trucial_Coast_1948"@),
        6304 => Some("Datum_Voirol_1875"@),
        6305 => Some("Datum_Voirol_Unifie_1960"@),
        6306 => Some("Datum_Bern_1938"@),
        6307 => Some("Datum_Nord_Sahara_1959"@),
        6308 => Some("Datum_Stockholm_1938"@),
        6309 => Some("Datum_Yacare"@),
        _ => None,
    }
}

/// The geodetic datum names for the codes 6310 to 6902.
pub open spec fn geodetic_datum_names_6310_to_6902(code: u16) -> Option<Seq<char>> {
    match code {
        6310 => Some("Datum_Yoff"@),
        6311 => Some("Datum_Zanderij"@),
        6312 => Some("Datum_Militar_Geographische_Institut"@),
        6313 => Some("Datum_Reseau_National_Belge_1972"@),
        6314 => Some("Datum_Deutsche_Hauptdreiecksnetz"@),
        6315 => Some("Datum_Conakry_1905"@),
        6322 => Some("Datum_WGS72"@),
        6324 => Some("Datum_WGS72_Transit_Broadcast_Ephemeris"@),
        6326 => Some("Datum_WGS84"@),
        6901 => Some("Datum_Ancienne_Triangulation_Francaise"@),
        6902 => Some("Datum_Nord_de_Guerre"@),
        _ => None,
    }
}

fn add_geodetic_datum_names_6001_to_6213(m: &mut HashMap<u16, &'static str>)
    ensures
        extends_names(old(m)@, final(m)@, 0, 6213, |code: u16| geodetic_datum_names_6001_to_6213(code)),
{
    broadcast use vstd::std_specs::hash::group_hash_axioms;

    m.insert(6001, "DatumE_Airy1830");
    m.insert(6002, "DatumE_AiryModified1849");
    m.insert(6003, "DatumE_AustralianNationalSpheroid");
    m.insert(6004, "DatumE_Bessel1841");
    m.insert(6005, "DatumE_BesselModified");
    m.insert(6006, "DatumE_BesselNamibia");
    m.insert(6007, "DatumE_Clarke1858");
    m.insert(6008, "DatumE_Clarke1866");
    m.insert(6009, "DatumE_Clarke1866Michigan");
    m.insert(6010, "DatumE_Clarke1880_Benoit");
    m.insert(6011, "DatumE_Clarke1880_IGN");
    m.insert(6012, "DatumE_Clarke1880_RGS");
    m.insert(6013, "DatumE_Clarke1880_Arc");
    m.insert(6014, "DatumE_Clarke1880_SGA1922");
    m.insert(6015, "DatumE_Everest1830_1937Adjustment");
    m.insert(6016, "DatumE_Everest1830_1967Definition");
    m.insert(6017, "DatumE_Everest1830_1975Definition");
    m.insert(6018, "DatumE_Everest1830Modified");
    m.insert(6019, "DatumE_GRS1980");
    m.insert(6020, "DatumE_Helmert1906");
    m.insert(6021, "DatumE_IndonesianNationalSpheroid");
    m.insert(6022, "DatumE_International1924");
    m.insert(6023, "DatumE_International1967");
    m.insert(6024, "DatumE_Krassowsky1960");
    m.insert(6025, "DatumE_NWL9D");
    m.insert(6026, "DatumE_NWL10D");
    m.insert(6027, "DatumE_Plessis1817");
    m.insert(6028, "DatumE_Struve1860");
    m.insert(6029, "DatumE_WarOffice");
    m.insert(6030, "DatumE_WGS84");
    m.insert(6031, "DatumE_GEM10C");
    m.insert(6032, "DatumE_OSU86F");
    m.insert(6033, "DatumE_OSU91A");
    m.insert(6034, "DatumE_Clarke1880");
    m.insert(6035, "DatumE_Sphere");
    m.insert(6201, "Datum_Adindan");
    m.insert(6202, "Datum_Australian_Geodetic_Datum_1966");
    m.insert(6203, "Datum_Australian_Geodetic_Datum_1984");
    m.insert(6204, "Datum_Ain_el_Abd_1970");
    m.insert(6205, "Datum_Afgooye");
    m.insert(6206, "Datum_Agadez");
    m.insert(6207, "Datum_Lisbon");
    m.insert(6208, "Datum_Aratu");
    m.insert(6209, "Datum_Arc_1950");
    m.insert(6210, "Datum_Arc_1960");
    m.insert(6211, "Datum_Batavia");
    m.insert(6212, "Datum_Barbados");
    m.insert(6213, "Datum_Beduaram");
}

fn add_geodetic_datum_names_6214_to_6261(m: &mut HashMap<u16, &'static str>)
    ensures
        extends_names(old(m)@, final(m)@, 6214, 6261, |code: u16| geodetic_datum_names_6214_to_6261(code)),
{
    broadcast use vstd::std_specs::hash::group_hash_axioms;

    m.insert(6214, "Datum_Beijing_1954");
    m.insert(6215, "Datum_Reseau_National_Belge_1950");
    m.insert(6216, "Datum_Bermuda_1957");
    m.insert(6217, "Datum_Bern_1898");
    m.insert(6218, "Datum_Bogota");
    m.insert(6219, "Datum_Bukit_Rimpah");
    m.insert(6220, "Datum_Camacupa");
    m.insert(6221, "Datum_Campo_Inchauspe");
    m.insert(6222, "Datum_Cape");
    m.insert(6223, "Datum_Carthage");
    m.insert(6224, "Datum_Chua");
    m.insert(6225, "Datum_Corrego_Alegre");
    m.insert(6226, "Datum_Cote_d_Ivoire");
    m.insert(6227, "Datum_Deir_ez_Zor");
    m.insert(6228, "Datum_Douala");
    m.insert(6229, "Datum_Egypt_1907");
    m.insert(6230, "Datum_European_Datum_1950");
    m.insert(6231, "Datum_European_Datum_1987");
    m.insert(6232, "Datum_Fahud");
    m.insert(6233, "Datum_Gandajika_1970");
    m.insert(6234, "Datum_Garoua");
    m.insert(6235, "Datum_Guyane_Francaise");
    m.insert(6236, "Datum_Hu_Tzu_Shan");
    m.insert(6237, "Datum_Hungarian_Datum_1972");
    m.insert(6238, "Datum_Indonesian_Datum_1974");
    m.insert(6239, "Datum_Indian_1954");
    m.insert(6240, "Datum_Indian_1975");
    m.insert(6241, "Datum_Jamaica_1875");
    m.insert(6242, "Datum_Jamaica_1969");
    m.insert(6243, "Datum_Kalianpur");
    m.insert(6244, "Datum_Kandawala");
    m.insert(6245, "Datum_Kertau");
    m.insert(6246, "Datum_Kuwait_Oil_Company");
    m.insert(6247, "Datum_La_Canoa");
    m.insert(6248, "Datum_Provisional_S_American_Datum_1956");
    m.insert(6249, "Datum_Lake");
    m.insert(6250, "Datum_Leigon");
    m.insert(6251, "Datum_Liberia_1964");
    m.insert(6252, "Datum_Lome");
    m.insert(6253, "Datum_Luzon_1911");
    m.insert(6254, "Datum_Hito_XVIII_1963");
    m.insert(6255, "Datum_Herat_North");
    m.insert(6256, "Datum_Mahe_1971");
    m.insert(6257, "Datum_Makassar");
    m.insert(6258, "Datum_European_Reference_System_1989");
    m.insert(6259, "Datum_Malongo_1987");
    m.insert(6260, "Datum_Manoca");
    m.insert(6261, "Datum_Merchich");
}

fn add_geodetic_datum_names_6262_to_6309(m: &mut HashMap<u16, &'static str>)
    ensures
        extends_names(old(m)@, final(m)@, 6262, 6309, |code: u16| geodetic_datum_names_6262_to_6309(code)),
{
    broadcast use vstd::std_specs::hash::group_hash_axioms;

    m.insert(6262, "Datum_Massawa");
    m.insert(6263, "Datum_Minna");
    m.insert(6264, "Datum_Mhast");
    m.insert(6265, "Datum_Monte_Mario");
    m.insert(6266, "Datum_M_poraloko");
    m.insert(6267, "Datum_North_American_Datum_1927");
    m.insert(6268, "Datum_NAD_Michigan");
    m.insert(6269, "Datum_North_American_Datum_1983");
    m.insert(6270, "Datum_Nahrwan_1967");
    m.insert(6271, "Datum_Naparima_1972");
    m.insert(6272, "Datum_New_Zealand_Geodetic_Datum_1949");
    m.insert(6273, "Datum_NGO_1948");
    m.insert(6274, "Datum_Datum_73");
    m.insert(6275, "Datum_Nouvelle_Triangulation_Francaise");
    m.insert(6276, "Datum_NSWC_9Z_2");
    m.insert(6277, "Datum_OSGB_1936");
    m.insert(6278, "Datum_OSGB_1970_SN");
    m.insert(6279, "Datum_OS_SN_1980");
    m.insert(6280, "Datum_Padang_1884");
    m.insert(6281, "Datum_Palestine_1923");
    m.insert(6282, "Datum_Pointe_Noire");
    m.insert(6283, "Datum_Geocentric_Datum_of_Australia_1994");
    m.insert(6284, "Datum_Pulkovo_1942");
    m.insert(6285, "Datum_Qatar");
    m.insert(6286, "Datum_Qatar_1948");
    m.insert(6287, "Datum_Qornoq");
    m.insert(6288, "Datum_Loma_Quintana");
    m.insert(6289, "Datum_Amersfoort");
    m.insert(6290, "Datum_RT38");
    m.insert(6291, "Datum_South_American_Datum_1969");
    m.insert(6292, "Datum_Sapper_Hill_1943");
    m.insert(6293, "Datum_Schwarzeck");
    m.insert(6294, "Datum_Segora");
    m.insert(6295, "Datum_Serindung");
    m.insert(6296, "Datum_Sudan");
    m.insert(6297, "Datum_Tananarive_1925");
    m.insert(6298, "Datum_Timbalai_1948");
    m.insert(6299, "Datum_TM65");
    m.insert(6300, "Datum_TM75");
    m.insert(6301, "Datum_Tokyo");
    m.insert(6302, "Datum_Trinidad_1903");
    m.insert(6303, "Datum_Trucial_Coast_1948");
    m.insert(6304, "Datum_Voirol_1875");
    m.insert(6305, "Datum_Voirol_Unifie_1960");
    m.insert(6306, "Datum_Bern_1938");
    m.insert(6307, "Datum_Nord_Sahara_1959");
    m.insert(6308, "Datum_Stockholm_1938");
    m.insert(6309, "Datum_Yacare");
}

fn add_geodetic_datum_names_6310_to_6902(m: &mut HashMap<u16, &'static str>)
    ensures
        extends_names(old(m)@, final(m)@, 6310, 65535, |code: u16| geodetic_datum_names_6310_to_6902(code)),
{
    broadcast use vstd::std_specs::hash::group_hash_axioms;

    m.insert(6310, "Datum_Yoff");
    m.insert(6311, "Datum_Zanderij");
    m.insert(6312, "Datum_Militar_Geographische_Institut");
    m.insert(6313, "Datum_Reseau_National_Belge_1972");
    m.insert(6314, "Datum_Deutsche_Hauptdreiecksnetz");
    m.insert(6315, "Datum_Conakry_1905");
    m.insert(6322, "Datum_WGS72");
    m.insert(6324, "Datum_WGS72_Transit_Broadcast_Ephemeris");
    m.insert(6326, "Datum_WGS84");
    m.insert(6901, "Datum_Ancienne_Triangulation_Francaise");
    m.insert(6902, "Datum_Nord_de_Guerre");
}

/// Builds the table of geodetic datum names.
pub(crate) fn geodetic_datum_map() -> (m: HashMap<u16, &'static str>)
    ensures
        holds_names(m@, |code: u16| geodetic_datum_name(code)),
{
    let mut m: HashMap<u16, &'static str> = HashMap::new();
    add_geodetic_datum_names_6001_to_6213(&mut m);
    add_geodetic_datum_names_6214_to_6261(&mut m);
    add_geodetic_datum_names_6262_to_6309(&mut m);
    add_geodetic_datum_names_6310_to_6902(&mut m);
    m
}

} // verus!
