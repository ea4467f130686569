//! The geographic coordinate system names that GeoKey 2048 can refer to.

use std::collections::HashMap;
use vstd::prelude::*;
use crate::keyword_tables::{extends_names, holds_names};

verus! {

/// The name of the geographic coordinate system with the given code, if the table lists it.
pub open spec fn geographic_type_name(code: u16) -> Option<Seq<char>> {
    if code <= 4213 {
        geographic_type_names_4001_to_4213(code)
    } else if code <= 4261 {
        geographic_type_names_4214_to_4261(code)
    } else if code <= 4309 {
        geographic_type_names_4262_to_4309(code)
    } else {
        geographic_type_names_4310_to_4902(code)
    }
}

/// The geographic coordinate system names for the codes 4001 to 4213.
pub open spec fn geographic_type_names_4001_to_4213(code: u16) -> Option<Seq<char>> {
    match code {
        4001 => Some("GCSE_Airy1830"@),
        4002 => Some("GCSE_AiryModified1849"@),
        4003 => Some("GCSE_AustralianNationalSpheroid"@),
        4004 => Some("GCSE_Bessel1841"@),
        4005 => Some("GCSE_BesselModified"@),
        4006 => Some("GCSE_BesselNamibia"@),
        4007 => Some("GCSE_Clarke1858"@),
        4008 => Some("GCSE_Clarke1866"@),
        4009 => Some("GCSE_Clarke1866Michigan"@),
        4010 => Some("GCSE_Clarke1880_Benoit"@),
        4011 => Some("GCSE_Clarke1880_IGN"@),
        4012 => Some("GCSE_Clarke1880_RGS"@),
        4013 => Some("GCSE_Clarke1880_Arc"@),
        4014 => Some("GCSE_Clarke1880_SGA1922"@),
        4015 => Some("GCSE_Everest1830_1937Adjustment"@),
        4016 => Some("GCSE_Everest1830_1967Definition"@),
        4017 => Some("GCSE_Everest1830_1975Definition"@),
        4018 => Some("GCSE_Everest1830Modified"@),
        4019 => Some("GCSE_GRS1980"@),
        4020 => Some("GCSE_Helmert1906"@),
        4021 => Some("GCSE_IndonesianNationalSpheroid"@),
        4022 => Some("GCSE_International1924"@),
        4023 => Some("GCSE_International1967"@),
        4024 => Some("GCSE_Krassowsky1940"@),
        4025 => Some("GCSE_NWL9D"@),
        4026 => Some("GCSE_NWL10D"@),
        4027 => Some("GCSE_Plessis1817"@),
        4028 => Some("GCSE_Struve1860"@),
        4029 => Some("GCSE_WarOffice"@),
        4030 => Some("GCSE_WGS84"@),
        4031 => Some("GCSE_GEM10C"@),
        4032 => Some("GCSE_OSU86F"@),
        4033 => Some("GCSE_OSU91A"@),
        4034 => Some("GCSE_Clarke1880"@),
        4035 => Some("GCSE_Sphere"@),
        4201 => Some("GCS_Adindan"@),
        4202 => Some("GCS_AGD66"@),
        4203 => Some("GCS_AGD84"@),
        4204 => Some("GCS_Ain_el_Abd"@),
        4205 => Some("GCS_Afgooye"@),
        4206 => Some("GCS_Agadez"@),
        4207 => Some("GCS_Lisbon"@),
        4208 => Some("GCS_Aratu"@),
        4209 => Some("GCS_Arc_1950"@),
        4210 => Some("GCS_Arc_1960"@),
        4211 => Some("GCS_Batavia"@),
        4212 => Some("GCS_Barbados"@),
        4213 => Some("GCS_Beduaram"@),
        _ => None,
    }
}

/// The geographic coordinate system names for the codes 4214 to 4261.
pub open spec fn geographic_type_names_4214_to_4261(code: u16) -> Option<Seq<char>> {
    match code {
        4214 => Some("GCS_Beijing_1954"@),
        4215 => Some("GCS_Belge_1950"@),
        4216 => Some("GCS_Bermuda_1957"@),
        4217 => Some("GCS_Bern_1898"@),
        4218 => Some("GCS_Bogota"@),
        4219 => Some("GCS_Bukit_Rimpah"@),
        4220 => Some("GCS_Camacupa"@),
        4221 => Some("GCS_Campo_Inchauspe"@),
        4222 => Some("GCS_Cape"@),
        4223 => Some("GCS_Carthage"@),
        4224 => Some("GCS_Chua"@),
        4225 => Some("GCS_Corrego_Alegre"@),
        4226 => Some("GCS_Cote_d_Ivoire"@),
        4227 => Some("GCS_Deir_ez_Zor"@),
        4228 => Some("GCS_Douala"@),
        4229 => Some("GCS_Egypt_1907"@),
        4230 => Some("GCS_ED50"@),
        4231 => Some("GCS_ED87"@),
        4232 => Some("GCS_Fahud"@),
        4233 => Some("GCS_Gandajika_1970"@),
        4234 => Some("GCS_Garoua"@),
        4235 => Some("GCS_Guyane_Francaise"@),
        4236 => Some("GCS_Hu_Tzu_Shan"@),
        4237 => Some("GCS_HD72"@),
        4238 => Some("GCS_ID74"@),
        4239 => Some("GCS_Indian_1954"@),
        4240 => Some("GCS_Indian_1975"@),
        4241 => Some("GCS_Jamaica_1875"@),
        4242 => Some("GCS_JAD69"@),
        4243 => Some("GCS_Kalianpur"@),
        4244 => Some("GCS_Kandawala"@),
        4245 => Some("GCS_Kertau"@),
        4246 => Some("GCS_KOC"@),
        4247 => Some("GCS_La_Canoa"@),
        4248 => Some("GCS_PSAD56"@),
        4249 => Some("GCS_Lake"@),
        4250 => Some("GCS_Leigon"@),
        4251 => Some("GCS_Liberia_1964"@),
        4252 => Some("GCS_Lome"@),
        4253 => Some("GCS_Luzon_1911"@),
        4254 => Some("GCS_Hito_XVIII_1963"@),
        4255 => Some("GCS_Herat_North"@),
        4256 => Some("GCS_Mahe_1971"@),
        4257 => Some("GCS_Makassar"@),
        4258 => Some("GCS_EUREF89"@),
        4259 => Some("GCS_Malongo_1987"@),
        4260 => Some("GCS_Manoca"@),
        4261 => Some("GCS_Merchich"@),
        _ => None,
    }
}

/// The geographic coordinate system names for the codes 4262 to 4309.
pub open spec fn geographic_type_names_4262_to_4309(code: u16) -> Option<Seq<char>> {
    match code {
        4262 => Some("GCS_Massawa"@),
        4263 => Some("GCS_Minna"@),
        4264 => Some("GCS_Mhast"@),
        4265 => Some("GCS_Monte_Mario"@),
        4266 => Some("GCS_M_poraloko"@),
        4267 => Some("GCS_NAD27"@),
        4268 => Some("GCS_NAD_Michigan"@),
        4269 => Some("GCS_NAD83"@),
        4270 => Some("GCS_Nahrwan_1967"@),
        4271 => Some("GCS_Naparima_1972"@),
        4272 => Some("GCS_GD49"@),
        4273 => Some("GCS_NGO_1948"@),
        4274 => Some("GCS_Datum_73"@),
        4275 => Some("GCS_NTF"@),
        4276 => Some("GCS_NSWC_9Z_2"@),
        4277 => Some("GCS_OSGB_1936"@),
        4278 => Some("GCS_OSGB70"@),
        4279 => Some("GCS_OS_SN80"@),
        4280 => Some("GCS_Padang"@),
        4281 => Some("GCS_Palestine_1923"@),
        4282 => Some("GCS_Pointe_Noire"@),
        4283 => Some("GCS_GDA94"@),
        4284 => Some("GCS_Pulkovo_1942"@),
        4285 => Some("GCS_Qatar"@),
        4286 => Some("GCS_Qatar_1948"@),
        4287 => Some("GCS_Qornoq"@),
        4288 => Some("GCS_Loma_Quintana"@),
        4289 => Some("GCS_Amersfoort"@),
        4290 => Some("GCS_RT38"@),
        4291 => Some("GCS_SAD69"@),
        4292 => Some("GCS_Sapper_Hill_1943"@),
        4293 => Some("GCS_Schwarzeck"@),
        4294 => Some("GCS_Segora"@),
        4295 => Some("GCS_Serindung"@),
        4296 => Some("GCS_Sudan"@),
        4297 => Some("GCS_Tananarive"@),
        4298 => Some("GCS_Timbalai_1948"@),
        4299 => Some("GCS_TM65"@),
        4300 => Some("GCS_TM75"@),
        4301 => Some("GCS_Tokyo"@),
        4302 => Some("GCS_Trinidad_1903"@),
        4303 => Some("GCS_TC_1948"@),
        4304 => Some("GCS_Voirol_1875"@),
        4305 => Some("GCS_Voirol_Unifie"@),
        4306 => Some("GCS_Bern_1938"@),
        4307 => Some("GCS_Nord_Sahara_1959"@),
        4308 => Some("GCS_Stockholm_1938"@),
        4309 => Some("GCS_Yacare"@),
        _ => None,
    }
}

/// The geographic coordinate system names for the codes 4310 to 4902.
pub open spec fn geographic_type_names_4310_to_4902(code: u16) -> Option<Seq<char>> {
    match code {
        4310 => Some("GCS_Yoff"@),
        4311 => Some("GCS_Zanderij"@),
        4312 => Some("GCS_MGI"@),
        4313 => Some("GCS_Belge_1972"@),
        4314 => Some("GCS_DHDN"@),
        4315 => Some("GCS_Conakry_1905"@),
        4322 => Some("GCS_WGS_72"@),
        4324 => Some("GCS_WGS_72BE"@),
        4326 => Some("GCS_WGS_84"@),
        4801 => Some("GCS_Bern_1898_Bern"@),
        4802 => Some("GCS_Bogota_Bogota"@),
        4803 => Some("GCS_Lisbon_Lisbon"@),
        4804 => Some("GCS_Makassar_Jakarta"@),
        4805 => Some("GCS_MGI_Ferro"@),
        4806 => Some("GCS_Monte_Mario_Rome"@),
        4807 => Some("GCS_NTF_Paris"@),
        4808 => Some("GCS_Padang_Jakarta"@),
        4809 => Some("GCS_Belge_1950_Brussels"@),
        4810 => Some("GCS_Tananarive_Paris"@),
        4811 => Some("GCS_Voirol_1875_Paris"@),
        4812 => Some("GCS_Voirol_Unifie_Paris"@),
        4813 => Some("GCS_Batavia_Jakarta"@),
        4901 => Some("GCS_ATF_Paris"@),
        4902 => Some("GCS_NDG_Paris"@),
        _ => None,
    }
}

fn add_geographic_type_names_4001_to_4213(m: &mut HashMap<u16, &'static str>)
    ensures
        extends_names(old(m)@, final(m)@, 0, 4213, |code: u16| geographic_type_names_4001_to_4213(code)),
{
    broadcast use vstd::std_specs::hash::group_hash_axioms;

    m.insert(4001, "GCSE_Airy1830");
    m.insert(4002, "GCSE_AiryModified1849");
    m.insert(4003, "GCSE_AustralianNationalSpheroid");
    m.insert(4004, "GCSE_Bessel1841");
    m.insert(4005, "GCSE_BesselModified");
    m.insert(4006, "GCSE_BesselNamibia");
    m.insert(4007, "GCSE_Clarke1858");
    m.insert(4008, "GCSE_Clarke1866");
    m.insert(4009, "GCSE_Clarke1866Michigan");
    m.insert(4010, "GCSE_Clarke1880_Benoit");
    m.insert(4011, "GCSE_Clarke1880_IGN");
    m.insert(4012, "GCSE_Clarke1880_RGS");
    m.insert(4013, "GCSE_Clarke1880_Arc");
    m.insert(4014, "GCSE_Clarke1880_SGA1922");
    m.insert(4015, "GCSE_Everest1830_1937Adjustment");
    m.insert(4016, "GCSE_Everest1830_1967Definition");
    m.insert(4017, "GCSE_Everest1830_1975Definition");
    m.insert(4018, "GCSE_Everest1830Modified");
    m.insert(4019, "GCSE_GRS1980");
    m.insert(4020, "GCSE_Helmert1906");
    m.insert(4021, "GCSE_IndonesianNationalSpheroid");
    m.insert(4022, "GCSE_International1924");
    m.insert(4023, "GCSE_International1967");
    m.insert(4024, "GCSE_Krassowsky1940");
    m.insert(4025, "GCSE_NWL9D");
    m.insert(4026, "GCSE_NWL10D");
    m.insert(4027, "GCSE_Plessis1817");
    m.insert(4028, "GCSE_Struve1860");
    m.insert(4029, "GCSE_WarOffice");
    m.insert(4030, "GCSE_WGS84");
    m.insert(4031, "GCSE_GEM10C");
    m.insert(4032, "GCSE_OSU86F");
    m.insert(4033, "GCSE_OSU91A");
    m.insert(4034, "GCSE_Clarke1880");
    m.insert(4035, "GCSE_Sphere");
    m.insert(4201, "GCS_Adindan");
    m.insert(4202, "GCS_AGD66");
    m.insert(4203, "GCS_AGD84");
    m.insert(4204, "GCS_Ain_el_Abd");
    m.insert(4205, "GCS_Afgooye");
    m.insert(4206, "GCS_Agadez");
    m.insert(4207, "GCS_Lisbon");
    m.insert(4208, "GCS_Aratu");
    m.insert(4209, "GCS_Arc_1950");
    m.insert(4210, "GCS_Arc_1960");
    m.insert(4211, "GCS_Batavia");
    m.insert(4212, "GCS_Barbados");
    m.insert(4213, "GCS_Beduaram");
}

fn add_geographic_type_names_4214_to_4261(m: &mut HashMap<u16, &'static str>)
    ensures
        extends_names(old(m)@, final(m)@, 4214, 4261, |code: u16| geographic_type_names_4214_to_4261(code)),
{
    broadcast use vstd::std_specs::hash::group_hash_axioms;

    m.insert(4214, "GCS_Beijing_1954");
    m.insert(4215, "GCS_Belge_1950");
    m.insert(4216, "GCS_Bermuda_1957");
    m.insert(4217, "GCS_Bern_1898");
    m.insert(4218, "GCS_Bogota");
    m.insert(4219, "GCS_Bukit_Rimpah");
    m.insert(4220, "GCS_Camacupa");
    m.insert(4221, "GCS_Campo_Inchauspe");
    m.insert(4222, "GCS_Cape");
    m.insert(4223, "GCS_Carthage");
    m.insert(4224, "GCS_Chua");
    m.insert(4225, "GCS_Corrego_Alegre");
    m.insert(4226, "GCS_Cote_d_Ivoire");
    m.insert(4227, "GCS_Deir_ez_Zor");
    m.insert(4228, "GCS_Douala");
    m.insert(4229, "GCS_Egypt_1907");
    m.insert(4230, "GCS_ED50");
    m.insert(4231, "GCS_ED87");
    m.insert(4232, "GCS_Fahud");
    m.insert(4233, "GCS_Gandajika_1970");
    m.insert(4234, "GCS_Garoua");
    m.insert(4235, "GCS_Guyane_Francaise");
    m.insert(4236, "GCS_Hu_Tzu_Shan");
    m.insert(4237, "GCS_HD72");
    m.insert(4238, "GCS_ID74");
    m.insert(4239, "GCS_Indian_1954");
    m.insert(4240, "GCS_Indian_1975");
    m.insert(4241, "GCS_Jamaica_1875");
    m.insert(4242, "GCS_JAD69");
    m.insert(4243, "GCS_Kalianpur");
    m.insert(4244, "GCS_Kandawala");
    m.insert(4245, "GCS_Kertau");
    m.insert(4246, "GCS_KOC");
    m.insert(4247, "GCS_La_Canoa");
    m.insert(4248, "GCS_PSAD56");
    m.insert(4249, "GCS_Lake");
    m.insert(4250, "GCS_Leigon");
    m.insert(4251, "GCS_Liberia_1964");
    m.insert(4252, "GCS_Lome");
    m.insert(4253, "GCS_Luzon_1911");
    m.insert(4254, "GCS_Hito_XVIII_1963");
    m.insert(4255, "GCS_Herat_North");
    m.insert(4256, "GCS_Mahe_1971");
    m.insert(4257, "GCS_Makassar");
    m.insert(4258, "GCS_EUREF89");
    m.insert(4259, "GCS_Malongo_1987");
    m.insert(4260, "GCS_Manoca");
    m.insert(4261, "GCS_Merchich");
}

fn add_geographic_type_names_4262_to_4309(m: &mut HashMap<u16, &'static str>)
    ensures
        extends_names(old(m)@, final(m)@, 4262, 4309, |code: u16| geographic_type_names_4262_to_4309(code)),
{
    broadcast use vstd::std_specs::hash::group_hash_axioms;

    m.insert(4262, "GCS_Massawa");
    m.insert(4263, "GCS_Minna");
    m.insert(4264, "GCS_Mhast");
    m.insert(4265, "GCS_Monte_Mario");
    m.insert(4266, "GCS_M_poraloko");
    m.insert(4267, "GCS_NAD27");
    m.insert(4268, "GCS_NAD_Michigan");
    m.insert(4269, "GCS_NAD83");
    m.insert(4270, "GCS_Nahrwan_1967");
    m.insert(4271, "GCS_Naparima_1972");
    m.insert(4272, "GCS_GD49");
    m.insert(4273, "GCS_NGO_1948");
    m.insert(4274, "GCS_Datum_73");
    m.insert(4275, "GCS_NTF");
    m.insert(4276, "GCS_NSWC_9Z_2");
    m.insert(4277, "GCS_OSGB_1936");
    m.insert(4278, "GCS_OSGB70");
    m.insert(4279, "GCS_OS_SN80");
    m.insert(4280, "GCS_Padang");
    m.insert(4281, "GCS_Palestine_1923");
    m.insert(4282, "GCS_Pointe_Noire");
    m.insert(4283, "GCS_GDA94");
    m.insert(4284, "GCS_Pulkovo_1942");
    m.insert(4285, "GCS_Qatar");
    m.insert(4286, "GCS_Qatar_1948");
    m.insert(4287, "GCS_Qornoq");
    m.insert(4288, "GCS_Loma_Quintana");
    m.insert(4289, "GCS_Amersfoort");
    m.insert(4290, "GCS_RT38");
    m.insert(4291, "GCS_SAD69");
    m.insert(4292, "GCS_Sapper_Hill_1943");
    m.insert(4293, "GCS_Schwarzeck");
    m.insert(4294, "GCS_Segora");
    m.insert(4295, "GCS_Serindung");
    m.insert(4296, "GCS_Sudan");
    m.insert(4297, "GCS_Tananarive");
    m.insert(4298, "GCS_Timbalai_1948");
    m.insert(4299, "GCS_TM65");
    m.insert(4300, "GCS_TM75");
    m.insert(4301, "GCS_Tokyo");
    m.insert(4302, "GCS_Trinidad_1903");
    m.insert(4303, "GCS_TC_1948");
    m.insert(4304, "GCS_Voirol_1875");
    m.insert(4305, "GCS_Voirol_Unifie");
    m.insert(4306, "GCS_Bern_1938");
    m.insert(4307, "GCS_Nord_Sahara_1959");
    m.insert(4308, "GCS_Stockholm_1938");
    m.insert(4309, "GCS_Yacare");
}

fn add_geographic_type_names_4310_to_4902(m: &mut HashMap<u16, &'static str>)
    ensures
        extends_names(old(m)@, final(m)@, 4310, 65535, |code: u16| geographic_type_names_4310_to_4902(code)),
{
    broadcast use vstd::std_specs::hash::group_hash_axioms;

    m.insert(4310, "GCS_Yoff");
    m.insert(4311, "GCS_Zanderij");
    m.insert(4312, "GCS_MGI");
    m.insert(4313, "GCS_Belge_1972");
    m.insert(4314, "GCS_DHDN");
    m.insert(4315, "GCS_Conakry_1905");
    m.insert(4322, "GCS_WGS_72");
    m.insert(4324, "GCS_WGS_72BE");
    m.insert(4326, "GCS_WGS_84");
    m.insert(4801, "GCS_Bern_1898_Bern");
    m.insert(4802, "GCS_Bogota_Bogota");
    m.insert(4803, "GCS_Lisbon_Lisbon");
    m.insert(4804, "GCS_Makassar_Jakarta");
    m.insert(4805, "GCS_MGI_Ferro");
    m.insert(4806, "GCS_Monte_Mario_Rome");
    m.insert(4807, "GCS_NTF_Paris");
    m.insert(4808, "GCS_Padang_Jakarta");
    m.insert(4809, "GCS_Belge_1950_Brussels");
    m.insert(4810, "GCS_Tananarive_Paris");
    m.insert(4811, "GCS_Voirol_1875_Paris");
    m.insert(4812, "GCS_Voirol_Unifie_Paris");
    m.insert(4813, "GCS_Batavia_Jakarta");
    m.insert(4901, "GCS_ATF_Paris");
    m.insert(4902, "GCS_NDG_Paris");
}

/// Builds the table of geographic coordinate system names.
pub(crate) fn geographic_type_map() -> (m: HashMap<u16, &'static str>)
    ensures
        holds_names(m@, |code: u16| geographic_type_name(code)),
{
    let mut m: HashMap<u16, &'static str> = HashMap::new();
    add_geographic_type_names_4001_to_4213(&mut m);
    add_geographic_type_names_4214_to_4261(&mut m);
    add_geographic_type_names_4262_to_4309(&mut m);
    add_geographic_type_names_4310_to_4902(&mut m);
    m
}

} // verus!
