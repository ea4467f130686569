//! The projection names that GeoKey 3074 can refer to.

use std::collections::HashMap;
use vstd::prelude::*;
use crate::keyword_tables::{extends_names, holds_names};

verus! {

/// The name of the projection with the given code, if the table lists it.
pub open spec fn projection_name(code: u16) -> Option<Seq<char>> {
    if code <= 11101 {
        projection_names_10101_to_11101(code)
    } else if code <= 12143 {
        projection_names_11102_to_12143(code)
    } else if code <= 13200 {
        projection_names_12201_to_13200(code)
    } else if code <= 14333 {
        projection_names_13230_to_14333(code)
    } else if code <= 15040 {
        projection_names_14400_to_15040(code)
    } else if code <= 18052 {
        projection_names_15101_to_18052(code)
    } else {
        projection_names_18053_to_19912(code)
    }
}

/// The projection names for the codes 10101 to 11101.
pub open spec fn projection_names_10101_to_11101(code: u16) -> Option<Seq<char>> {
    match code {
        10101 => Some("Proj_Alabama_CS27_East"@),
        10102 => Some("Proj_Alabama_CS27_West"@),
        10131 => Some("Proj_Alabama_CS83_East"@),
        10132 => Some("Proj_Alabama_CS83_West"@),
        10201 => Some("Proj_Arizona_Coordinate_System_east"@),
        10202 => Some("Proj_Arizona_Coordinate_System_Central"@),
        10203 => Some("Proj_Arizona_Coordinate_System_west"@),
        10231 => Some("Proj_Arizona_CS83_east"@),
        10232 => Some("Proj_Arizona_CS83_Central"@),
        10233 => Some("Proj_Arizona_CS83_west"@),
        10301 => Some("Proj_Arkansas_CS27_North"@),
        10302 => Some("Proj_Arkansas_CS27_South"@),
        10331 => Some("Proj_Arkansas_CS83_North"@),
        10332 => Some("Proj_Arkansas_CS83_South"@),
        10401 => Some("Proj_California_CS27_I"@),
        10402 => Some("Proj_California_CS27_II"@),
        10403 => Some("Proj_California_CS27_III"@),
        10404 => Some("Proj_California_CS27_IV"@),
        10405 => Some("Proj_California_CS27_V"@),
        10406 => Some("Proj_California_CS27_VI"@),
        10407 => Some("Proj_California_CS27_VII"@),
        10431 => Some("Proj_California_CS83_1"@),
        10432 => Some("Proj_California_CS83_2"@),
        10433 => Some("Proj_California_CS83_3"@),
        10434 => Some("Proj_California_CS83_4"@),
        10435 => Some("Proj_California_CS83_5"@),
        10436 => Some("Proj_California_CS83_6"@),
        10501 => Some("Proj_Colorado_CS27_North"@),
        10502 => Some("Proj_Colorado_CS27_Central"@),
        10503 => Some("Proj_Colorado_CS27_South"@),
        10531 => Some("Proj_Colorado_CS83_North"@),
        10532 => Some("Proj_Colorado_CS83_Central"@),
        10533 => Some("Proj_Colorado_CS83_South"@),
        10600 => Some("Proj_Connecticut_CS27"@),
        10630 => Some("Proj_Connecticut_CS83"@),
        10700 => Some("Proj_Delaware_CS27"@),
        10730 => Some("Proj_Delaware_CS83"@),
        10901 => Some("Proj_Florida_CS27_East"@),
        10902 => Some("Proj_Florida_CS27_West"@),
        10903 => Some("Proj_Florida_CS27_North"@),
        10931 => Some("Proj_Florida_CS83_East"@),
        10932 => Some("Proj_Florida_CS83_West"@),
        10933 => Some("Proj_Florida_CS83_North"@),
        11001 => Some("Proj_Georgia_CS27_East"@),
        11002 => Some("Proj_Georgia_CS27_West"@),
        11031 => Some("Proj_Georgia_CS83_East"@),
        11032 => Some("Proj_Georgia_CS83_West"@),
        11101 => Some("Proj_Idaho_CS27_East"@),
        _ => None,
    }
}

/// The projection names for the codes 11102 to 12143.
pub open spec fn projection_names_11102_to_12143(code: u16) -> Option<Seq<char>> {
    match code {
        11102 => Some("Proj_Idaho_CS27_Central"@),
        11103 => Some("Proj_Idaho_CS27_West"@),
        11131 => Some("Proj_Idaho_CS83_East"@),
        11132 => Some("Proj_Idaho_CS83_Central"@),
        11133 => Some("Proj_Idaho_CS83_West"@),
        11201 => Some("Proj_Illinois_CS27_East"@),
        11202 => Some("Proj_Illinois_CS27_West"@),
        11231 => Some("Proj_Illinois_CS83_East"@),
        11232 => Some("Proj_Illinois_CS83_West"@),
        11301 => Some("Proj_Indiana_CS27_East"@),
        11302 => Some("Proj_Indiana_CS27_West"@),
        11331 => Some("Proj_Indiana_CS83_East"@),
        11332 => Some("Proj_Indiana_CS83_West"@),
        11401 => Some("Proj_Iowa_CS27_North"@),
        11402 => Some("Proj_Iowa_CS27_South"@),
        11431 => Some("Proj_Iowa_CS83_North"@),
        11432 => Some("Proj_Iowa_CS83_South"@),
        11501 => Some("Proj_Kansas_CS27_North"@),
        11502 => Some("Proj_Kansas_CS27_South"@),
        11531 => Some("Proj_Kansas_CS83_North"@),
        11532 => Some("Proj_Kansas_CS83_South"@),
        11601 => Some("Proj_Kentucky_CS27_North"@),
        11602 => Some("Proj_Kentucky_CS27_South"@),
        11631 => Some("Proj_Kentucky_CS83_North"@),
        11632 => Some("Proj_Kentucky_CS83_South"@),
        11701 => Some("Proj_Louisiana_CS27_North"@),
        11702 => Some("Proj_Louisiana_CS27_South"@),
        11731 => Some("Proj_Louisiana_CS83_North"@),
        11732 => Some("Proj_Louisiana_CS83_South"@),
        11801 => Some("Proj_Maine_CS27_East"@),
        11802 => Some("Proj_Maine_CS27_West"@),
        11831 => Some("Proj_Maine_CS83_East"@),
        11832 => Some("Proj_Maine_CS83_West"@),
        11900 => Some("Proj_Maryland_CS27"@),
        11930 => Some("Proj_Maryland_CS83"@),
        12001 => Some("Proj_Massachusetts_CS27_Mainland"@),
        12002 => Some("Proj_Massachusetts_CS27_Island"@),
        12031 => Some("Proj_Massachusetts_CS83_Mainland"@),
        12032 => Some("Proj_Massachusetts_CS83_Island"@),
        12101 => Some("Proj_Michigan_State_Plane_East"@),
        12102 => Some("Proj_Michigan_State_Plane_Old_Central"@),
        12103 => Some("Proj_Michigan_State_Plane_West"@),
        12111 => Some("Proj_Michigan_CS27_North"@),
        12112 => Some("Proj_Michigan_CS27_Central"@),
        12113 => Some("Proj_Michigan_CS27_South"@),
        12141 => Some("Proj_Michigan_CS83_North"@),
        12142 => Some("Proj_Michigan_CS83_Central"@),
        12143 => Some("Proj_Michigan_CS83_South"@),
        _ => None,
    }
}

/// The projection names for the codes 12201 to 13200.
pub open spec fn projection_names_12201_to_13200(code: u16) -> Option<Seq<char>> {
    match code {
        12201 => Some("Proj_Minnesota_CS27_North"@),
        12202 => Some("Proj_Minnesota_CS27_Central"@),
        12203 => Some("Proj_Minnesota_CS27_South"@),
        12231 => Some("Proj_Minnesota_CS83_North"@),
        12232 => Some("Proj_Minnesota_CS83_Central"@),
        12233 => Some("Proj_Minnesota_CS83_South"@),
        12301 => Some("Proj_Mississippi_CS27_East"@),
        12302 => Some("Proj_Mississippi_CS27_West"@),
        12331 => Some("Proj_Mississippi_CS83_East"@),
        12332 => Some("Proj_Mississippi_CS83_West"@),
        12401 => Some("Proj_Missouri_CS27_East"@),
        12402 => Some("Proj_Missouri_CS27_Central"@),
        12403 => Some("Proj_Missouri_CS27_West"@),
        12431 => Some("Proj_Missouri_CS83_East"@),
        12432 => Some("Proj_Missouri_CS83_Central"@),
        12433 => Some("Proj_Missouri_CS83_West"@),
        12501 => Some("Proj_Montana_CS27_North"@),
        12502 => Some("Proj_Montana_CS27_Central"@),
        12503 => Some("Proj_Montana_CS27_South"@),
        12530 => Some("Proj_Montana_CS83"@),
        12601 => Some("Proj_Nebraska_CS27_North"@),
        12602 => Some("Proj_Nebraska_CS27_South"@),
        12630 => Some("Proj_Nebraska_CS83"@),
        12701 => Some("Proj_Nevada_CS27_East"@),
        12702 => Some("Proj_Nevada_CS27_Central"@),
        12703 => Some("Proj_Nevada_CS27_West"@),
        12731 => Some("Proj_Nevada_CS83_East"@),
        12732 => Some("Proj_Nevada_CS83_Central"@),
        12733 => Some("Proj_Nevada_CS83_West"@),
        12800 => Some("Proj_New_Hampshire_CS27"@),
        12830 => Some("Proj_New_Hampshire_CS83"@),
        12900 => Some("Proj_New_Jersey_CS27"@),
        12930 => Some("Proj_New_Jersey_CS83"@),
        13001 => Some("Proj_New_Mexico_CS27_East"@),
        13002 => Some("Proj_New_Mexico_CS27_Central"@),
        13003 => Some("Proj_New_Mexico_CS27_West"@),
        13031 => Some("Proj_New_Mexico_CS83_East"@),
        13032 => Some("Proj_New_Mexico_CS83_Central"@),
        13033 => Some("Proj_New_Mexico_CS83_West"@),
        13101 => Some("Proj_New_York_CS27_East"@),
        13102 => Some("Proj_New_York_CS27_Central"@),
        13103 => Some("Proj_New_York_CS27_West"@),
        13104 => Some("Proj_New_York_CS27_Long_Island"@),
        13131 => Some("Proj_New_York_CS83_East"@),
        13132 => Some("Proj_New_York_CS83_Central"@),
        13133 => Some("Proj_New_York_CS83_West"@),
        13134 => Some("Proj_New_York_CS83_Long_Island"@),
        13200 => Some("Proj_North_Carolina_CS27"@),
        _ => None,
    }
}

/// The projection names for the codes 13230 to 14333.
pub open spec fn projection_names_13230_to_14333(code: u16) -> Option<Seq<char>> {
    match code {
        13230 => Some("Proj_North_Carolina_CS83"@),
        13301 => Some("Proj_North_Dakota_CS27_North"@),
        13302 => Some("Proj_North_Dakota_CS27_South"@),
        13331 => Some("Proj_North_Dakota_CS83_North"@),
        13332 => Some("Proj_North_Dakota_CS83_South"@),
        13401 => Some("Proj_Ohio_CS27_North"@),
        13402 => Some("Proj_Ohio_CS27_South"@),
        13431 => Some("Proj_Ohio_CS83_North"@),
        13432 => Some("Proj_Ohio_CS83_South"@),
        13501 => Some("Proj_Oklahoma_CS27_North"@),
        13502 => Some("Proj_Oklahoma_CS27_South"@),
        13531 => Some("Proj_Oklahoma_CS83_North"@),
        13532 => Some("Proj_Oklahoma_CS83_South"@),
        13601 => Some("Proj_Oregon_CS27_North"@),
        13602 => Some("Proj_Oregon_CS27_South"@),
        13631 => Some("Proj_Oregon_CS83_North"@),
        13632 => Some("Proj_Oregon_CS83_South"@),
        13701 => Some("Proj_Pennsylvania_CS27_North"@),
        13702 => Some("Proj_Pennsylvania_CS27_South"@),
        13731 => Some("Proj_Pennsylvania_CS83_North"@),
        13732 => Some("Proj_Pennsylvania_CS83_South"@),
        13800 => Some("Proj_Rhode_Island_CS27"@),
        13830 => Some("Proj_Rhode_Island_CS83"@),
        13901 => Some("Proj_South_Carolina_CS27_North"@),
        13902 => Some("Proj_South_Carolina_CS27_South"@),
        13930 => Some("Proj_South_Carolina_CS83"@),
        14001 => Some("Proj_South_Dakota_CS27_North"@),
        14002 => Some("Proj_South_Dakota_CS27_South"@),
        14031 => Some("Proj_South_Dakota_CS83_North"@),
        14032 => Some("Proj_South_Dakota_CS83_South"@),
        14100 => Some("Proj_Tennessee_CS27"@),
        14130 => Some("Proj_Tennessee_CS83"@),
        14201 => Some("Proj_Texas_CS27_North"@),
        14202 => Some("Proj_Texas_CS27_North_Central"@),
        14203 => Some("Proj_Texas_CS27_Central"@),
        14204 => Some("Proj_Texas_CS27_South_Central"@),
        14205 => Some("Proj_Texas_CS27_South"@),
        14231 => Some("Proj_Texas_CS83_North"@),
        14232 => Some("Proj_Texas_CS83_North_Central"@),
        14233 => Some("Proj_Texas_CS83_Central"@),
        14234 => Some("Proj_Texas_CS83_South_Central"@),
        14235 => Some("Proj_Texas_CS83_South"@),
        14301 => Some("Proj_Utah_CS27_North"@),
        14302 => Some("Proj_Utah_CS27_Central"@),
        14303 => Some("Proj_Utah_CS27_South"@),
        14331 => Some("Proj_Utah_CS83_North"@),
        14332 => Some("Proj_Utah_CS83_Central"@),
        14333 => Some("Proj_Utah_CS83_South"@),
        _ => None,
    }
}

/// The projection names for the codes 14400 to 15040.
pub open spec fn projection_names_14400_to_15040(code: u16) -> Option<Seq<char>> {
    match code {
        14400 => Some("Proj_Vermont_CS27"@),
        14430 => Some("Proj_Vermont_CS83"@),
        14501 => Some("Proj_Virginia_CS27_North"@),
        14502 => Some("Proj_Virginia_CS27_South"@),
        14531 => Some("Proj_Virginia_CS83_North"@),
        14532 => Some("Proj_Virginia_CS83_South"@),
        14601 => Some("Proj_Washington_CS27_North"@),
        14602 => Some("Proj_Washington_CS27_South"@),
        14631 => Some("Proj_Washington_CS83_North"@),
        14632 => Some("Proj_Washington_CS83_South"@),
        14701 => Some("Proj_West_Virginia_CS27_North"@),
        14702 => Some("Proj_West_Virginia_CS27_South"@),
        14731 => Some("Proj_West_Virginia_CS83_North"@),
        14732 => Some("Proj_West_Virginia_CS83_South"@),
        14801 => Some("Proj_Wisconsin_CS27_North"@),
        14802 => Some("Proj_Wisconsin_CS27_Central"@),
        14803 => Some("Proj_Wisconsin_CS27_South"@),
        14831 => Some("Proj_Wisconsin_CS83_North"@),
        14832 => Some("Proj_Wisconsin_CS83_Central"@),
        14833 => Some("Proj_Wisconsin_CS83_South"@),
        14901 => Some("Proj_Wyoming_CS27_East"@),
        14902 => Some("Proj_Wyoming_CS27_East_Central"@),
        14903 => Some("Proj_Wyoming_CS27_West_Central"@),
        14904 => Some("Proj_Wyoming_CS27_West"@),
        14931 => Some("Proj_Wyoming_CS83_East"@),
        14932 => Some("Proj_Wyoming_CS83_East_Central"@),
        14933 => Some("Proj_Wyoming_CS83_West_Central"@),
        14934 => Some("Proj_Wyoming_CS83_West"@),
        15001 => Some("Proj_Alaska_CS27_1"@),
        15002 => Some("Proj_Alaska_CS27_2"@),
        15003 => Some("Proj_Alaska_CS27_3"@),
        15004 => Some("Proj_Alaska_CS27_4"@),
        15005 => Some("Proj_Alaska_CS27_5"@),
        15006 => Some("Proj_Alaska_CS27_6"@),
        15007 => Some("Proj_Alaska_CS27_7"@),
        15008 => Some("Proj_Alaska_CS27_8"@),
        15009 => Some("Proj_Alaska_CS27_9"@),
        15010 => Some("Proj_Alaska_CS27_10"@),
        15031 => Some("Proj_Alaska_CS83_1"@),
        15032 => Some("Proj_Alaska_CS83_2"@),
        15033 => Some("Proj_Alaska_CS83_3"@),
        15034 => Some("Proj_Alaska_CS83_4"@),
        15035 => Some("Proj_Alaska_CS83_5"@),
        15036 => Some("Proj_Alaska_CS83_6"@),
        15037 => Some("Proj_Alaska_CS83_7"@),
        15038 => Some("Proj_Alaska_CS83_8"@),
        15039 => Some("Proj_Alaska_CS83_9"@),
        15040 => Some("Proj_Alaska_CS83_10"@),
        _ => None,
    }
}

/// The projection names for the codes 15101 to 18052.
pub open spec fn projection_names_15101_to_18052(code: u16) -> Option<Seq<char>> {
    match code {
        15101 => Some("Proj_Hawaii_CS27_1"@),
        15102 => Some("Proj_Hawaii_CS27_2"@),
        15103 => Some("Proj_Hawaii_CS27_3"@),
        15104 => Some("Proj_Hawaii_CS27_4"@),
        15105 => Some("Proj_Hawaii_CS27_5"@),
        15131 => Some("Proj_Hawaii_CS83_1"@),
        15132 => Some("Proj_Hawaii_CS83_2"@),
        15133 => Some("Proj_Hawaii_CS83_3"@),
        15134 => Some("Proj_Hawaii_CS83_4"@),
        15135 => Some("Proj_Hawaii_CS83_5"@),
        15201 => Some("Proj_Puerto_Rico_CS27"@),
        15202 => Some("Proj_St_Croix"@),
        15230 => Some("Proj_Puerto_Rico_Virgin_Is"@),
        15914 => Some("Proj_BLM_14N_feet"@),
        15915 => Some("Proj_BLM_15N_feet"@),
        15916 => Some("Proj_BLM_16N_feet"@),
        15917 => Some("Proj_BLM_17N_feet"@),
        17348 => Some("Proj_Map_Grid_of_Australia_48"@),
        17349 => Some("Proj_Map_Grid_of_Australia_49"@),
        17350 => Some("Proj_Map_Grid_of_Australia_50"@),
        17351 => Some("Proj_Map_Grid_of_Australia_51"@),
        17352 => Some("Proj_Map_Grid_of_Australia_52"@),
        17353 => Some("Proj_Map_Grid_of_Australia_53"@),
        17354 => Some("Proj_Map_Grid_of_Australia_54"@),
        17355 => Some("Proj_Map_Grid_of_Australia_55"@),
        17356 => Some("Proj_Map_Grid_of_Australia_56"@),
        17357 => Some("Proj_Map_Grid_of_Australia_57"@),
        17358 => Some("Proj_Map_Grid_of_Australia_58"@),
        17448 => Some("Proj_Australian_Map_Grid_48"@),
        17449 => Some("Proj_Australian_Map_Grid_49"@),
        17450 => Some("Proj_Australian_Map_Grid_50"@),
        17451 => Some("Proj_Australian_Map_Grid_51"@),
        17452 => Some("Proj_Australian_Map_Grid_52"@),
        17453 => Some("Proj_Australian_Map_Grid_53"@),
        17454 => Some("Proj_Australian_Map_Grid_54"@),
        17455 => Some("Proj_Australian_Map_Grid_55"@),
        17456 => Some("Proj_Australian_Map_Grid_56"@),
        17457 => Some("Proj_Australian_Map_Grid_57"@),
        17458 => Some("Proj_Australian_Map_Grid_58"@),
        18031 => Some("Proj_Argentina_1"@),
        18032 => Some("Proj_Argentina_2"@),
        18033 => Some("Proj_Argentina_3"@),
        18034 => Some("Proj_Argentina_4"@),
        18035 => Some("Proj_Argentina_5"@),
        18036 => Some("Proj_Argentina_6"@),
        18037 => Some("Proj_Argentina_7"@),
        18051 => Some("Proj_Colombia_3W"@),
        18052 => Some("Proj_Colombia_Bogota"@),
        _ => None,
    }
}

/// The projection names for the codes 18053 to 19912.
pub open spec fn projection_names_18053_to_19912(code: u16) -> Option<Seq<char>> {
    match code {
        18053 => Some("Proj_Colombia_3E"@),
        18054 => Some("Proj_Colombia_6E"@),
        18072 => Some("Proj_Egypt_Red_Belt"@),
        18073 => Some("Proj_Egypt_Purple_Belt"@),
        18074 => Some("Proj_Extended_Purple_Belt"@),
        18141 => Some("Proj_New_Zealand_North_Island_Nat_Grid"@),
        18142 => Some("Proj_New_Zealand_South_Island_Nat_Grid"@),
        19900 => Some("Proj_Bahrain_Grid"@),
        19905 => Some("Proj_Netherlands_E_Indies_Equatorial"@),
        19912 => Some("Proj_RSO_Borneo"@),
        _ => None,
    }
}

fn add_projection_names_10101_to_11101(m: &mut HashMap<u16, &'static str>)
    ensures
        extends_names(old(m)@, final(m)@, 0, 11101, |code: u16| projection_names_10101_to_11101(code)),
{
    broadcast use vstd::std_specs::hash::group_hash_axioms;

    m.insert(10101, "Proj_Alabama_CS27_East");
    m.insert(10102, "Proj_Alabama_CS27_West");
    m.insert(10131, "Proj_Alabama_CS83_East");
    m.insert(10132, "Proj_Alabama_CS83_West");
    m.insert(10201, "Proj_Arizona_Coordinate_System_east");
    m.insert(10202, "Proj_Arizona_Coordinate_System_Central");
    m.insert(10203, "Proj_Arizona_Coordinate_System_west");
    m.insert(10231, "Proj_Arizona_CS83_east");
    m.insert(10232, "Proj_Arizona_CS83_Central");
    m.insert(10233, "Proj_Arizona_CS83_west");
    m.insert(10301, "Proj_Arkansas_CS27_North");
    m.insert(10302, "Proj_Arkansas_CS27_South");
    m.insert(10331, "Proj_Arkansas_CS83_North");
    m.insert(10332, "Proj_Arkansas_CS83_South");
    m.insert(10401, "Proj_California_CS27_I");
    m.insert(10402, "Proj_California_CS27_II");
    m.insert(10403, "Proj_California_CS27_III");
    m.insert(10404, "Proj_California_CS27_IV");
    m.insert(10405, "Proj_California_CS27_V");
    m.insert(10406, "Proj_California_CS27_VI");
    m.insert(10407, "Proj_California_CS27_VII");
    m.insert(10431, "Proj_California_CS83_1");
    m.insert(10432, "Proj_California_CS83_2");
    m.insert(10433, "Proj_California_CS83_3");
    m.insert(10434, "Proj_California_CS83_4");
    m.insert(10435, "Proj_California_CS83_5");
    m.insert(10436, "Proj_California_CS83_6");
    m.insert(10501, "Proj_Colorado_CS27_North");
    m.insert(10502, "Proj_Colorado_CS27_Central");
    m.insert(10503, "Proj_Colorado_CS27_South");
    m.insert(10531, "Proj_Colorado_CS83_North");
    m.insert(10532, "Proj_Colorado_CS83_Central");
    m.insert(10533, "Proj_Colorado_CS83_South");
    m.insert(10600, "Proj_Connecticut_CS27");
    m.insert(10630, "Proj_Connecticut_CS83");
    m.insert(10700, "Proj_Delaware_CS27");
    m.insert(10730, "Proj_Delaware_CS83");
    m.insert(10901, "Proj_Florida_CS27_East");
    m.insert(10902, "Proj_Florida_CS27_West");
    m.insert(10903, "Proj_Florida_CS27_North");
    m.insert(10931, "Proj_Florida_CS83_East");
    m.insert(10932, "Proj_Florida_CS83_West");
    m.insert(10933, "Proj_Florida_CS83_North");
    m.insert(11001, "Proj_Georgia_CS27_East");
    m.insert(11002, "Proj_Georgia_CS27_West");
    m.insert(11031, "Proj_Georgia_CS83_East");
    m.insert(11032, "Proj_Georgia_CS83_West");
    m.insert(11101, "Proj_Idaho_CS27_East");
}

fn add_projection_names_11102_to_12143(m: &mut HashMap<u16, &'static str>)
    ensures
        extends_names(old(m)@, final(m)@, 11102, 12143, |code: u16| projection_names_11102_to_12143(code)),
{
    broadcast use vstd::std_specs::hash::group_hash_axioms;

    m.insert(11102, "Proj_Idaho_CS27_Central");
    m.insert(11103, "Proj_Idaho_CS27_West");
    m.insert(11131, "Proj_Idaho_CS83_East");
    m.insert(11132, "Proj_Idaho_CS83_Central");
    m.insert(11133, "Proj_Idaho_CS83_West");
    m.insert(11201, "Proj_Illinois_CS27_East");
    m.insert(11202, "Proj_Illinois_CS27_West");
    m.insert(11231, "Proj_Illinois_CS83_East");
    m.insert(11232, "Proj_Illinois_CS83_West");
    m.insert(11301, "Proj_Indiana_CS27_East");
    m.insert(11302, "Proj_Indiana_CS27_West");
    m.insert(11331, "Proj_Indiana_CS83_East");
    m.insert(11332, "Proj_Indiana_CS83_West");
    m.insert(11401, "Proj_Iowa_CS27_North");
    m.insert(11402, "Proj_Iowa_CS27_South");
    m.insert(11431, "Proj_Iowa_CS83_North");
    m.insert(11432, "Proj_Iowa_CS83_South");
    m.insert(11501, "Proj_Kansas_CS27_North");
    m.insert(11502, "Proj_Kansas_CS27_South");
    m.insert(11531, "Proj_Kansas_CS83_North");
    m.insert(11532, "Proj_Kansas_CS83_South");
    m.insert(11601, "Proj_Kentucky_CS27_North");
    m.insert(11602, "Proj_Kentucky_CS27_South");
    m.insert(11631, "Proj_Kentucky_CS83_North");
    m.insert(11632, "Proj_Kentucky_CS83_South");
    m.insert(11701, "Proj_Louisiana_CS27_North");
    m.insert(11702, "Proj_Louisiana_CS27_South");
    m.insert(11731, "Proj_Louisiana_CS83_North");
    m.insert(11732, "Proj_Louisiana_CS83_South");
    m.insert(11801, "Proj_Maine_CS27_East");
    m.insert(11802, "Proj_Maine_CS27_West");
    m.insert(11831, "Proj_Maine_CS83_East");
    m.insert(11832, "Proj_Maine_CS83_West");
    m.insert(11900, "Proj_Maryland_CS27");
    m.insert(11930, "Proj_Maryland_CS83");
    m.insert(12001, "Proj_Massachusetts_CS27_Mainland");
    m.insert(12002, "Proj_Massachusetts_CS27_Island");
    m.insert(12031, "Proj_Massachusetts_CS83_Mainland");
    m.insert(12032, "Proj_Massachusetts_CS83_Island");
    m.insert(12101, "Proj_Michigan_State_Plane_East");
    m.insert(12102, "Proj_Michigan_State_Plane_Old_Central");
    m.insert(12103, "Proj_Michigan_State_Plane_West");
    m.insert(12111, "Proj_Michigan_CS27_North");
    m.insert(12112, "Proj_Michigan_CS27_Central");
    m.insert(12113, "Proj_Michigan_CS27_South");
    m.insert(12141, "Proj_Michigan_CS83_North");
    m.insert(12142, "Proj_Michigan_CS83_Central");
    m.insert(12143, "Proj_Michigan_CS83_South");
}

fn add_projection_names_12201_to_13200(m: &mut HashMap<u16, &'static str>)
    ensures
        extends_names(old(m)@, final(m)@, 12144, 13200, |code: u16| projection_names_12201_to_13200(code)),
{
    broadcast use vstd::std_specs::hash::group_hash_axioms;

    m.insert(12201, "Proj_Minnesota_CS27_North");
    m.insert(12202, "Proj_Minnesota_CS27_Central");
    m.insert(12203, "Proj_Minnesota_CS27_South");
    m.insert(12231, "Proj_Minnesota_CS83_North");
    m.insert(12232, "Proj_Minnesota_CS83_Central");
    m.insert(12233, "Proj_Minnesota_CS83_South");
    m.insert(12301, "Proj_Mississippi_CS27_East");
    m.insert(12302, "Proj_Mississippi_CS27_West");
    m.insert(12331, "Proj_Mississippi_CS83_East");
    m.insert(12332, "Proj_Mississippi_CS83_West");
    m.insert(12401, "Proj_Missouri_CS27_East");
    m.insert(12402, "Proj_Missouri_CS27_Central");
    m.insert(12403, "Proj_Missouri_CS27_West");
    m.insert(12431, "Proj_Missouri_CS83_East");
    m.insert(12432, "Proj_Missouri_CS83_Central");
    m.insert(12433, "Proj_Missouri_CS83_West");
    m.insert(12501, "Proj_Montana_CS27_North");
    m.insert(12502, "Proj_Montana_CS27_Central");
    m.insert(12503, "Proj_Montana_CS27_South");
    m.insert(12530, "Proj_Montana_CS83");
    m.insert(12601, "Proj_Nebraska_CS27_North");
    m.insert(12602, "Proj_Nebraska_CS27_South");
    m.insert(12630, "Proj_Nebraska_CS83");
    m.insert(12701, "Proj_Nevada_CS27_East");
    m.insert(12702, "Proj_Nevada_CS27_Central");
    m.insert(12703, "Proj_Nevada_CS27_West");
    m.insert(12731, "Proj_Nevada_CS83_East");
    m.insert(12732, "Proj_Nevada_CS83_Central");
    m.insert(12733, "Proj_Nevada_CS83_West");
    m.insert(12800, "Proj_New_Hampshire_CS27");
    m.insert(12830, "Proj_New_Hampshire_CS83");
    m.insert(12900, "Proj_New_Jersey_CS27");
    m.insert(12930, "Proj_New_Jersey_CS83");
    m.insert(13001, "Proj_New_Mexico_CS27_East");
    m.insert(13002, "Proj_New_Mexico_CS27_Central");
    m.insert(13003, "Proj_New_Mexico_CS27_West");
    m.insert(13031, "Proj_New_Mexico_CS83_East");
    m.insert(13032, "Proj_New_Mexico_CS83_Central");
    m.insert(13033, "Proj_New_Mexico_CS83_West");
    m.insert(13101, "Proj_New_York_CS27_East");
    m.insert(13102, "Proj_New_York_CS27_Central");
    m.insert(13103, "Proj_New_York_CS27_West");
    m.insert(13104, "Proj_New_York_CS27_Long_Island");
    m.insert(13131, "Proj_New_York_CS83_East");
    m.insert(13132, "Proj_New_York_CS83_Central");
    m.insert(13133, "Proj_New_York_CS83_West");
    m.insert(13134, "Proj_New_York_CS83_Long_Island");
    m.insert(13200, "Proj_North_Carolina_CS27");
}

fn add_projection_names_13230_to_14333(m: &mut HashMap<u16, &'static str>)
    ensures
        extends_names(old(m)@, final(m)@, 13201, 14333, |code: u16| projection_names_13230_to_14333(code)),
{
    broadcast use vstd::std_specs::hash::group_hash_axioms;

    m.insert(13230, "Proj_North_Carolina_CS83");
    m.insert(13301, "Proj_North_Dakota_CS27_North");
    m.insert(13302, "Proj_North_Dakota_CS27_South");
    m.insert(13331, "Proj_North_Dakota_CS83_North");
    m.insert(13332, "Proj_North_Dakota_CS83_South");
    m.insert(13401, "Proj_Ohio_CS27_North");
    m.insert(13402, "Proj_Ohio_CS27_South");
    m.insert(13431, "Proj_Ohio_CS83_North");
    m.insert(13432, "Proj_Ohio_CS83_South");
    m.insert(13501, "Proj_Oklahoma_CS27_North");
    m.insert(13502, "Proj_Oklahoma_CS27_South");
    m.insert(13531, "Proj_Oklahoma_CS83_North");
    m.insert(13532, "Proj_Oklahoma_CS83_South");
    m.insert(13601, "Proj_Oregon_CS27_North");
    m.insert(13602, "Proj_Oregon_CS27_South");
    m.insert(13631, "Proj_Oregon_CS83_North");
    m.insert(13632, "Proj_Oregon_CS83_South");
    m.insert(13701, "Proj_Pennsylvania_CS27_North");
    m.insert(13702, "Proj_Pennsylvania_CS27_South");
    m.insert(13731, "Proj_Pennsylvania_CS83_North");
    m.insert(13732, "Proj_Pennsylvania_CS83_South");
    m.insert(13800, "Proj_Rhode_Island_CS27");
    m.insert(13830, "Proj_Rhode_Island_CS83");
    m.insert(13901, "Proj_South_Carolina_CS27_North");
    m.insert(13902, "Proj_South_Carolina_CS27_South");
    m.insert(13930, "Proj_South_Carolina_CS83");
    m.insert(14001, "Proj_South_Dakota_CS27_North");
    m.insert(14002, "Proj_South_Dakota_CS27_South");
    m.insert(14031, "Proj_South_Dakota_CS83_North");
    m.insert(14032, "Proj_South_Dakota_CS83_South");
    m.insert(14100, "Proj_Tennessee_CS27");
    m.insert(14130, "Proj_Tennessee_CS83");
    m.insert(14201, "Proj_Texas_CS27_North");
    m.insert(14202, "Proj_Texas_CS27_North_Central");
    m.insert(14203, "Proj_Texas_CS27_Central");
    m.insert(14204, "Proj_Texas_CS27_South_Central");
    m.insert(14205, "Proj_Texas_CS27_South");
    m.insert(14231, "Proj_Texas_CS83_North");
    m.insert(14232, "Proj_Texas_CS83_North_Central");
    m.insert(14233, "Proj_Texas_CS83_Central");
    m.insert(14234, "Proj_Texas_CS83_South_Central");
    m.insert(14235, "Proj_Texas_CS83_South");
    m.insert(14301, "Proj_Utah_CS27_North");
    m.insert(14302, "Proj_Utah_CS27_Central");
    m.insert(14303, "Proj_Utah_CS27_South");
    m.insert(14331, "Proj_Utah_CS83_North");
    m.insert(14332, "Proj_Utah_CS83_Central");
    m.insert(14333, "Proj_Utah_CS83_South");
}

fn add_projection_names_14400_to_15040(m: &mut HashMap<u16, &'static str>)
    ensures
        extends_names(old(m)@, final(m)@, 14334, 15040, |code: u16| projection_names_14400_to_15040(code)),
{
    broadcast use vstd::std_specs::hash::group_hash_axioms;

    m.insert(14400, "Proj_Vermont_CS27");
    m.insert(14430, "Proj_Vermont_CS83");
    m.insert(14501, "Proj_Virginia_CS27_North");
    m.insert(14502, "Proj_Virginia_CS27_South");
    m.insert(14531, "Proj_Virginia_CS83_North");
    m.insert(14532, "Proj_Virginia_CS83_South");
    m.insert(14601, "Proj_Washington_CS27_North");
    m.insert(14602, "Proj_Washington_CS27_South");
    m.insert(14631, "Proj_Washington_CS83_North");
    m.insert(14632, "Proj_Washington_CS83_South");
    m.insert(14701, "Proj_West_Virginia_CS27_North");
    m.insert(14702, "Proj_West_Virginia_CS27_South");
    m.insert(14731, "Proj_West_Virginia_CS83_North");
    m.insert(14732, "Proj_West_Virginia_CS83_South");
    m.insert(14801, "Proj_Wisconsin_CS27_North");
    m.insert(14802, "Proj_Wisconsin_CS27_Central");
    m.insert(14803, "Proj_Wisconsin_CS27_South");
    m.insert(14831, "Proj_Wisconsin_CS83_North");
    m.insert(14832, "Proj_Wisconsin_CS83_Central");
    m.insert(14833, "Proj_Wisconsin_CS83_South");
    m.insert(14901, "Proj_Wyoming_CS27_East");
    m.insert(14902, "Proj_Wyoming_CS27_East_Central");
    m.insert(14903, "Proj_Wyoming_CS27_West_Central");
    m.insert(14904, "Proj_Wyoming_CS27_West");
    m.insert(14931, "Proj_Wyoming_CS83_East");
    m.insert(14932, "Proj_Wyoming_CS83_East_Central");
    m.insert(14933, "Proj_Wyoming_CS83_West_Central");
    m.insert(14934, "Proj_Wyoming_CS83_West");
    m.insert(15001, "Proj_Alaska_CS27_1");
    m.insert(15002, "Proj_Alaska_CS27_2");
    m.insert(15003, "Proj_Alaska_CS27_3");
    m.insert(15004, "Proj_Alaska_CS27_4");
    m.insert(15005, "Proj_Alaska_CS27_5");
    m.insert(15006, "Proj_Alaska_CS27_6");
    m.insert(15007, "Proj_Alaska_CS27_7");
    m.insert(15008, "Proj_Alaska_CS27_8");
    m.insert(15009, "Proj_Alaska_CS27_9");
    m.insert(15010, "Proj_Alaska_CS27_10");
    m.insert(15031, "Proj_Alaska_CS83_1");
    m.insert(15032, "Proj_Alaska_CS83_2");
    m.insert(15033, "Proj_Alaska_CS83_3");
    m.insert(15034, "Proj_Alaska_CS83_4");
    m.insert(15035, "Proj_Alaska_CS83_5");
    m.insert(15036, "Proj_Alaska_CS83_6");
    m.insert(15037, "Proj_Alaska_CS83_7");
    m.insert(15038, "Proj_Alaska_CS83_8");
    m.insert(15039, "Proj_Alaska_CS83_9");
    m.insert(15040, "Proj_Alaska_CS83_10");
}

fn add_projection_names_15101_to_18052(m: &mut HashMap<u16, &'static str>)
    ensures
        extends_names(old(m)@, final(m)@, 15041, 18052, |code: u16| projection_names_15101_to_18052(code)),
{
    broadcast use vstd::std_specs::hash::group_hash_axioms;

    m.insert(15101, "Proj_Hawaii_CS27_1");
    m.insert(15102, "Proj_Hawaii_CS27_2");
    m.insert(15103, "Proj_Hawaii_CS27_3");
    m.insert(15104, "Proj_Hawaii_CS27_4");
    m.insert(15105, "Proj_Hawaii_CS27_5");
    m.insert(15131, "Proj_Hawaii_CS83_1");
    m.insert(15132, "Proj_Hawaii_CS83_2");
    m.insert(15133, "Proj_Hawaii_CS83_3");
    m.insert(15134, "Proj_Hawaii_CS83_4");
    m.insert(15135, "Proj_Hawaii_CS83_5");
    m.insert(15201, "Proj_Puerto_Rico_CS27");
    m.insert(15202, "Proj_St_Croix");
    m.insert(15230, "Proj_Puerto_Rico_Virgin_Is");
    m.insert(15914, "Proj_BLM_14N_feet");
    m.insert(15915, "Proj_BLM_15N_feet");
    m.insert(15916, "Proj_BLM_16N_feet");
    m.insert(15917, "Proj_BLM_17N_feet");
    m.insert(17348, "Proj_Map_Grid_of_Australia_48");
    m.insert(17349, "Proj_Map_Grid_of_Australia_49");
    m.insert(17350, "Proj_Map_Grid_of_Australia_50");
    m.insert(17351, "Proj_Map_Grid_of_Australia_51");
    m.insert(17352, "Proj_Map_Grid_of_Australia_52");
    m.insert(17353, "Proj_Map_Grid_of_Australia_53");
    m.insert(17354, "Proj_Map_Grid_of_Australia_54");
    m.insert(17355, "Proj_Map_Grid_of_Australia_55");
    m.insert(17356, "Proj_Map_Grid_of_Australia_56");
    m.insert(17357, "Proj_Map_Grid_of_Australia_57");
    m.insert(17358, "Proj_Map_Grid_of_Australia_58");
    m.insert(17448, "Proj_Australian_Map_Grid_48");
    m.insert(17449, "Proj_Australian_Map_Grid_49");
    m.insert(17450, "Proj_Australian_Map_Grid_50");
    m.insert(17451, "Proj_Australian_Map_Grid_51");
    m.insert(17452, "Proj_Australian_Map_Grid_52");
    m.insert(17453, "Proj_Australian_Map_Grid_53");
    m.insert(17454, "Proj_Australian_Map_Grid_54");
    m.insert(17455, "Proj_Australian_Map_Grid_55");
    m.insert(17456, "Proj_Australian_Map_Grid_56");
    m.insert(17457, "Proj_Australian_Map_Grid_57");
    m.insert(17458, "Proj_Australian_Map_Grid_58");
    m.insert(18031, "Proj_Argentina_1");
    m.insert(18032, "Proj_Argentina_2");
    m.insert(18033, "Proj_Argentina_3");
    m.insert(18034, "Proj_Argentina_4");
    m.insert(18035, "Proj_Argentina_5");
    m.insert(18036, "Proj_Argentina_6");
    m.insert(18037, "Proj_Argentina_7");
    m.insert(18051, "Proj_Colombia_3W");
    m.insert(18052, "Proj_Colombia_Bogota");
}

fn add_projection_names_18053_to_19912(m: &mut HashMap<u16, &'static str>)
    ensures
        extends_names(old(m)@, final(m)@, 18053, 65535, |code: u16| projection_names_18053_to_19912(code)),
{
    broadcast use vstd::std_specs::hash::group_hash_axioms;

    m.insert(18053, "Proj_Colombia_3E");
    m.insert(18054, "Proj_Colombia_6E");
    m.insert(18072, "Proj_Egypt_Red_Belt");
    m.insert(18073, "Proj_Egypt_Purple_Belt");
    m.insert(18074, "Proj_Extended_Purple_Belt");
    m.insert(18141, "Proj_New_Zealand_North_Island_Nat_Grid");
    m.insert(18142, "Proj_New_Zealand_South_Island_Nat_Grid");
    m.insert(19900, "Proj_Bahrain_Grid");
    m.insert(19905, "Proj_Netherlands_E_Indies_Equatorial");
    m.insert(19912, "Proj_RSO_Borneo");
}

/// Builds the table of projection names.
pub(crate) fn proj_map() -> (m: HashMap<u16, &'static str>)
    ensures
        holds_names(m@, |code: u16| projection_name(code)),
{
    let mut m: HashMap<u16, &'static str> = HashMap::new();
    add_projection_names_10101_to_11101(&mut m);
    add_projection_names_11102_to_12143(&mut m);
    add_projection_names_12201_to_13200(&mut m);
    add_projection_names_13230_to_14333(&mut m);
    add_projection_names_14400_to_15040(&mut m);
    add_projection_names_15101_to_18052(&mut m);
    add_projection_names_18053_to_19912(&mut m);
    m
}

} // verus!
