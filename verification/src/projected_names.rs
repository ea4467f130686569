//! The projected coordinate system names that GeoKey 3072 can refer to.

use std::collections::HashMap;
use vstd::prelude::*;
use crate::keyword_tables::{extends_names, holds_names};

verus! {

/// The name of the projected coordinate system with the given code, if the table lists it.
pub open spec fn projected_cs_type_name(code: u16) -> Option<Seq<char>> {
    if code <= 21148 {
        projected_cs_type_names_20137_to_21148(code)
    } else if code <= 22992 {
        projected_cs_type_names_21149_to_22992(code)
    } else if code <= 24500 {
        projected_cs_type_names_22993_to_24500(code)
    } else if code <= 26712 {
        projected_cs_type_names_24547_to_26712(code)
    } else if code <= 26766 {
        projected_cs_type_names_26713_to_26766(code)
    } else if code <= 26915 {
        projected_cs_type_names_26767_to_26915(code)
    } else if code <= 26969 {
        projected_cs_type_names_26916_to_26969(code)
    } else if code <= 28349 {
        projected_cs_type_names_26970_to_28349(code)
    } else if code <= 28473 {
        projected_cs_type_names_28350_to_28473(code)
    } else if code <= 29900 {
        projected_cs_type_names_28474_to_29900(code)
    } else if code <= 32026 {
        projected_cs_type_names_30200_to_32026(code)
    } else if code <= 32119 {
        projected_cs_type_names_32027_to_32119(code)
    } else if code <= 32210 {
        projected_cs_type_names_32120_to_32210(code)
    } else if code <= 32258 {
        projected_cs_type_names_32211_to_32258(code)
    } else if code <= 32346 {
        projected_cs_type_names_32259_to_32346(code)
    } else if code <= 32434 {
        projected_cs_type_names_32347_to_32434(code)
    } else if code <= 32522 {
        projected_cs_type_names_32435_to_32522(code)
    } else if code <= 32610 {
        projected_cs_type_names_32523_to_32610(code)
    } else if code <= 32658 {
        projected_cs_type_names_32611_to_32658(code)
    } else if code <= 32746 {
        projected_cs_type_names_32659_to_32746(code)
    } else {
        projected_cs_type_names_32747_to_32760(code)
    }
}

/// The projected coordinate system names for the codes 20137 to 21148.
pub open spec fn projected_cs_type_names_20137_to_21148(code: u16) -> Option<Seq<char>> {
    match code {
        20137 => Some("PCS_Adindan_UTM_zone_37N"@),
        20138 => Some("PCS_Adindan_UTM_zone_38N"@),
        20248 => Some("PCS_AGD66_AMG_zone_48"@),
        20249 => Some("PCS_AGD66_AMG_zone_49"@),
        20250 => Some("PCS_AGD66_AMG_zone_50"@),
        20251 => Some("PCS_AGD66_AMG_zone_51"@),
        20252 => Some("PCS_AGD66_AMG_zone_52"@),
        20253 => Some("PCS_AGD66_AMG_zone_53"@),
        20254 => Some("PCS_AGD66_AMG_zone_54"@),
        20255 => Some("PCS_AGD66_AMG_zone_55"@),
        20256 => Some("PCS_AGD66_AMG_zone_56"@),
        20257 => Some("PCS_AGD66_AMG_zone_57"@),
        20258 => Some("PCS_AGD66_AMG_zone_58"@),
        20348 => Some("PCS_AGD84_AMG_zone_48"@),
        20349 => Some("PCS_AGD84_AMG_zone_49"@),
        20350 => Some("PCS_AGD84_AMG_zone_50"@),
        20351 => Some("PCS_AGD84_AMG_zone_51"@),
        20352 => Some("PCS_AGD84_AMG_zone_52"@),
        20353 => Some("PCS_AGD84_AMG_zone_53"@),
        20354 => Some("PCS_AGD84_AMG_zone_54"@),
        20355 => Some("PCS_AGD84_AMG_zone_55"@),
        20356 => Some("PCS_AGD84_AMG_zone_56"@),
        20357 => Some("PCS_AGD84_AMG_zone_57"@),
        20358 => Some("PCS_AGD84_AMG_zone_58"@),
        20437 => Some("PCS_Ain_el_Abd_UTM_zone_37N"@),
        20438 => Some("PCS_Ain_el_Abd_UTM_zone_38N"@),
        20439 => Some("PCS_Ain_el_Abd_UTM_zone_39N"@),
        20499 => Some("PCS_Ain_el_Abd_Bahrain_Grid"@),
        20538 => Some("PCS_Afgooye_UTM_zone_38N"@),
        20539 => Some("PCS_Afgooye_UTM_zone_39N"@),
        20700 => Some("PCS_Lisbon_Portugese_Grid"@),
        20822 => Some("PCS_Aratu_UTM_zone_22S"@),
        20823 => Some("PCS_Aratu_UTM_zone_23S"@),
        20824 => Some("PCS_Aratu_UTM_zone_24S"@),
        20973 => Some("PCS_Arc_1950_Lo13"@),
        20975 => Some("PCS_Arc_1950_Lo15"@),
        20977 => Some("PCS_Arc_1950_Lo17"@),
        20979 => Some("PCS_Arc_1950_Lo19"@),
        20981 => Some("PCS_Arc_1950_Lo21"@),
        20983 => Some("PCS_Arc_1950_Lo23"@),
        20985 => Some("PCS_Arc_1950_Lo25"@),
        20987 => Some("PCS_Arc_1950_Lo27"@),
        20989 => Some("PCS_Arc_1950_Lo29"@),
        20991 => Some("PCS_Arc_1950_Lo31"@),
        20993 => Some("PCS_Arc_1950_Lo33"@),
        20995 => Some("PCS_Arc_1950_Lo35"@),
        21100 => Some("PCS_Batavia_NEIEZ"@),
        21148 => Some("PCS_Batavia_UTM_zone_48S"@),
        _ => None,
    }
}

/// The projected coordinate system names for the codes 21149 to 22992.
pub open spec fn projected_cs_type_names_21149_to_22992(code: u16) -> Option<Seq<char>> {
    match code {
        21149 => Some("PCS_Batavia_UTM_zone_49S"@),
        21150 => Some("PCS_Batavia_UTM_zone_50S"@),
        21413 => Some("PCS_Beijing_Gauss_zone_13"@),
        21414 => Some("PCS_Beijing_Gauss_zone_14"@),
        21415 => Some("PCS_Beijing_Gauss_zone_15"@),
        21416 => Some("PCS_Beijing_Gauss_zone_16"@),
        21417 => Some("PCS_Beijing_Gauss_zone_17"@),
        21418 => Some("PCS_Beijing_Gauss_zone_18"@),
        21419 => Some("PCS_Beijing_Gauss_zone_19"@),
        21420 => Some("PCS_Beijing_Gauss_zone_20"@),
        21421 => Some("PCS_Beijing_Gauss_zone_21"@),
        21422 => Some("PCS_Beijing_Gauss_zone_22"@),
        21423 => Some("PCS_Beijing_Gauss_zone_23"@),
        21473 => Some("PCS_Beijing_Gauss_13N"@),
        21474 => Some("PCS_Beijing_Gauss_14N"@),
        21475 => Some("PCS_Beijing_Gauss_15N"@),
        21476 => Some("PCS_Beijing_Gauss_16N"@),
        21477 => Some("PCS_Beijing_Gauss_17N"@),
        21478 => Some("PCS_Beijing_Gauss_18N"@),
        21479 => Some("PCS_Beijing_Gauss_19N"@),
        21480 => Some("PCS_Beijing_Gauss_20N"@),
        21481 => Some("PCS_Beijing_Gauss_21N"@),
        21482 => Some("PCS_Beijing_Gauss_22N"@),
        21483 => Some("PCS_Beijing_Gauss_23N"@),
        21500 => Some("PCS_Belge_Lambert_50"@),
        21790 => Some("PCS_Bern_1898_Swiss_Old"@),
        21817 => Some("PCS_Bogota_UTM_zone_17N"@),
        21818 => Some("PCS_Bogota_UTM_zone_18N"@),
        21891 => Some("PCS_Bogota_Colombia_3W"@),
        21892 => Some("PCS_Bogota_Colombia_Bogota"@),
        21893 => Some("PCS_Bogota_Colombia_3E"@),
        21894 => Some("PCS_Bogota_Colombia_6E"@),
        22032 => Some("PCS_Camacupa_UTM_32S"@),
        22033 => Some("PCS_Camacupa_UTM_33S"@),
        22191 => Some("PCS_C_Inchauspe_Argentina_1"@),
        22192 => Some("PCS_C_Inchauspe_Argentina_2"@),
        22193 => Some("PCS_C_Inchauspe_Argentina_3"@),
        22194 => Some("PCS_C_Inchauspe_Argentina_4"@),
        22195 => Some("PCS_C_Inchauspe_Argentina_5"@),
        22196 => Some("PCS_C_Inchauspe_Argentina_6"@),
        22197 => Some("PCS_C_Inchauspe_Argentina_7"@),
        22332 => Some("PCS_Carthage_UTM_zone_32N"@),
        22391 => Some("PCS_Carthage_Nord_Tunisie"@),
        22392 => Some("PCS_Carthage_Sud_Tunisie"@),
        22523 => Some("PCS_Corrego_Alegre_UTM_23S"@),
        22524 => Some("PCS_Corrego_Alegre_UTM_24S"@),
        22832 => Some("PCS_Douala_UTM_zone_32N"@),
        22992 => Some("PCS_Egypt_1907_Red_Belt"@),
        _ => None,
    }
}

/// The projected coordinate system names for the codes 22993 to 24500.
pub open spec fn projected_cs_type_names_22993_to_24500(code: u16) -> Option<Seq<char>> {
    match code {
        22993 => Some("PCS_Egypt_1907_Purple_Belt"@),
        22994 => Some("PCS_Egypt_1907_Ext_Purple"@),
        23028 => Some("PCS_ED50_UTM_zone_28N"@),
        23029 => Some("PCS_ED50_UTM_zone_29N"@),
        23030 => Some("PCS_ED50_UTM_zone_30N"@),
        23031 => Some("PCS_ED50_UTM_zone_31N"@),
        23032 => Some("PCS_ED50_UTM_zone_32N"@),
        23033 => Some("PCS_ED50_UTM_zone_33N"@),
        23034 => Some("PCS_ED50_UTM_zone_34N"@),
        23035 => Some("PCS_ED50_UTM_zone_35N"@),
        23036 => Some("PCS_ED50_UTM_zone_36N"@),
        23037 => Some("PCS_ED50_UTM_zone_37N"@),
        23038 => Some("PCS_ED50_UTM_zone_38N"@),
        23239 => Some("PCS_Fahud_UTM_zone_39N"@),
        23240 => Some("PCS_Fahud_UTM_zone_40N"@),
        23433 => Some("PCS_Garoua_UTM_zone_33N"@),
        23846 => Some("PCS_ID74_UTM_zone_46N"@),
        23847 => Some("PCS_ID74_UTM_zone_47N"@),
        23848 => Some("PCS_ID74_UTM_zone_48N"@),
        23849 => Some("PCS_ID74_UTM_zone_49N"@),
        23850 => Some("PCS_ID74_UTM_zone_50N"@),
        23851 => Some("PCS_ID74_UTM_zone_51N"@),
        23852 => Some("PCS_ID74_UTM_zone_52N"@),
        23853 => Some("PCS_ID74_UTM_zone_53N"@),
        23886 => Some("PCS_ID74_UTM_zone_46S"@),
        23887 => Some("PCS_ID74_UTM_zone_47S"@),
        23888 => Some("PCS_ID74_UTM_zone_48S"@),
        23889 => Some("PCS_ID74_UTM_zone_49S"@),
        23890 => Some("PCS_ID74_UTM_zone_50S"@),
        23891 => Some("PCS_ID74_UTM_zone_51S"@),
        23892 => Some("PCS_ID74_UTM_zone_52S"@),
        23893 => Some("PCS_ID74_UTM_zone_53S"@),
        23894 => Some("PCS_ID74_UTM_zone_54S"@),
        23947 => Some("PCS_Indian_1954_UTM_47N"@),
        23948 => Some("PCS_Indian_1954_UTM_48N"@),
        24047 => Some("PCS_Indian_1975_UTM_47N"@),
        24048 => Some("PCS_Indian_1975_UTM_48N"@),
        24100 => Some("PCS_Jamaica_1875_Old_Grid"@),
        24200 => Some("PCS_JAD69_Jamaica_Grid"@),
        24370 => Some("PCS_Kalianpur_India_0"@),
        24371 => Some("PCS_Kalianpur_India_I"@),
        24372 => Some("PCS_Kalianpur_India_IIa"@),
        24373 => Some("PCS_Kalianpur_India_IIIa"@),
        24374 => Some("PCS_Kalianpur_India_IVa"@),
        24382 => Some("PCS_Kalianpur_India_IIb"@),
        24383 => Some("PCS_Kalianpur_India_IIIb"@),
        24384 => Some("PCS_Kalianpur_India_IVb"@),
        24500 => Some("PCS_Kertau_Singapore_Grid"@),
        _ => None,
    }
}

/// The projected coordinate system names for the codes 24547 to 26712.
pub open spec fn projected_cs_type_names_24547_to_26712(code: u16) -> Option<Seq<char>> {
    match code {
        24547 => Some("PCS_Kertau_UTM_zone_47N"@),
        24548 => Some("PCS_Kertau_UTM_zone_48N"@),
        24720 => Some("PCS_La_Canoa_UTM_zone_20N"@),
        24721 => Some("PCS_La_Canoa_UTM_zone_21N"@),
        24818 => Some("PCS_PSAD56_UTM_zone_18N"@),
        24819 => Some("PCS_PSAD56_UTM_zone_19N"@),
        24820 => Some("PCS_PSAD56_UTM_zone_20N"@),
        24821 => Some("PCS_PSAD56_UTM_zone_21N"@),
        24877 => Some("PCS_PSAD56_UTM_zone_17S"@),
        24878 => Some("PCS_PSAD56_UTM_zone_18S"@),
        24879 => Some("PCS_PSAD56_UTM_zone_19S"@),
        24880 => Some("PCS_PSAD56_UTM_zone_20S"@),
        24891 => Some("PCS_PSAD56_Peru_west_zone"@),
        24892 => Some("PCS_PSAD56_Peru_central"@),
        24893 => Some("PCS_PSAD56_Peru_east_zone"@),
        25000 => Some("PCS_Leigon_Ghana_Grid"@),
        25231 => Some("PCS_Lome_UTM_zone_31N"@),
        25391 => Some("PCS_Luzon_Philippines_I"@),
        25392 => Some("PCS_Luzon_Philippines_II"@),
        25393 => Some("PCS_Luzon_Philippines_III"@),
        25394 => Some("PCS_Luzon_Philippines_IV"@),
        25395 => Some("PCS_Luzon_Philippines_V"@),
        25700 => Some("PCS_Makassar_NEIEZ"@),
        25932 => Some("PCS_Malongo_1987_UTM_32S"@),
        26191 => Some("PCS_Merchich_Nord_Maroc"@),
        26192 => Some("PCS_Merchich_Sud_Maroc"@),
        26193 => Some("PCS_Merchich_Sahara"@),
        26237 => Some("PCS_Massawa_UTM_zone_37N"@),
        26331 => Some("PCS_Minna_UTM_zone_31N"@),
        26332 => Some("PCS_Minna_UTM_zone_32N"@),
        26391 => Some("PCS_Minna_Nigeria_West"@),
        26392 => Some("PCS_Minna_Nigeria_Mid_Belt"@),
        26393 => Some("PCS_Minna_Nigeria_East"@),
        26432 => Some("PCS_Mhast_UTM_zone_32S"@),
        26591 => Some("PCS_Monte_Mario_Italy_1"@),
        26592 => Some("PCS_Monte_Mario_Italy_2"@),
        26632 => Some("PCS_M_poraloko_UTM_32N"@),
        26692 => Some("PCS_M_poraloko_UTM_32S"@),
        26703 => Some("PCS_NAD27_UTM_zone_3N"@),
        26704 => Some("PCS_NAD27_UTM_zone_4N"@),
        26705 => Some("PCS_NAD27_UTM_zone_5N"@),
        26706 => Some("PCS_NAD27_UTM_zone_6N"@),
        26707 => Some("PCS_NAD27_UTM_zone_7N"@),
        26708 => Some("PCS_NAD27_UTM_zone_8N"@),
        26709 => Some("PCS_NAD27_UTM_zone_9N"@),
        26710 => Some("PCS_NAD27_UTM_zone_10N"@),
        26711 => Some("PCS_NAD27_UTM_zone_11N"@),
        26712 => Some("PCS_NAD27_UTM_zone_12N"@),
        _ => None,
    }
}

/// The projected coordinate system names for the codes 26713 to 26766.
pub open spec fn projected_cs_type_names_26713_to_26766(code: u16) -> Option<Seq<char>> {
    match code {
        26713 => Some("PCS_NAD27_UTM_zone_13N"@),
        26714 => Some("PCS_NAD27_UTM_zone_14N"@),
        26715 => Some("PCS_NAD27_UTM_zone_15N"@),
        26716 => Some("PCS_NAD27_UTM_zone_16N"@),
        26717 => Some("PCS_NAD27_UTM_zone_17N"@),
        26718 => Some("PCS_NAD27_UTM_zone_18N"@),
        26719 => Some("PCS_NAD27_UTM_zone_19N"@),
        26720 => Some("PCS_NAD27_UTM_zone_20N"@),
        26721 => Some("PCS_NAD27_UTM_zone_21N"@),
        26722 => Some("PCS_NAD27_UTM_zone_22N"@),
        26729 => Some("PCS_NAD27_Alabama_East"@),
        26730 => Some("PCS_NAD27_Alabama_West"@),
        26731 => Some("PCS_NAD27_Alaska_zone_1"@),
        26732 => Some("PCS_NAD27_Alaska_zone_2"@),
        26733 => Some("PCS_NAD27_Alaska_zone_3"@),
        26734 => Some("PCS_NAD27_Alaska_zone_4"@),
        26735 => Some("PCS_NAD27_Alaska_zone_5"@),
        26736 => Some("PCS_NAD27_Alaska_zone_6"@),
        26737 => Some("PCS_NAD27_Alaska_zone_7"@),
        26738 => Some("PCS_NAD27_Alaska_zone_8"@),
        26739 => Some("PCS_NAD27_Alaska_zone_9"@),
        26740 => Some("PCS_NAD27_Alaska_zone_10"@),
        26741 => Some("PCS_NAD27_California_I"@),
        26742 => Some("PCS_NAD27_California_II"@),
        26743 => Some("PCS_NAD27_California_III"@),
        26744 => Some("PCS_NAD27_California_IV"@),
        26745 => Some("PCS_NAD27_California_V"@),
        26746 => Some("PCS_NAD27_California_VI"@),
        26747 => Some("PCS_NAD27_California_VII"@),
        26748 => Some("PCS_NAD27_Arizona_East"@),
        26749 => Some("PCS_NAD27_Arizona_Central"@),
        26750 => Some("PCS_NAD27_Arizona_West"@),
        26751 => Some("PCS_NAD27_Arkansas_North"@),
        26752 => Some("PCS_NAD27_Arkansas_South"@),
        26753 => Some("PCS_NAD27_Colorado_North"@),
        26754 => Some("PCS_NAD27_Colorado_Central"@),
        26755 => Some("PCS_NAD27_Colorado_South"@),
        26756 => Some("PCS_NAD27_Connecticut"@),
        26757 => Some("PCS_NAD27_Delaware"@),
        26758 => Some("PCS_NAD27_Florida_East"@),
        26759 => Some("PCS_NAD27_Florida_West"@),
        26760 => Some("PCS_NAD27_Florida_North"@),
        26761 => Some("PCS_NAD27_Hawaii_zone_1"@),
        26762 => Some("PCS_NAD27_Hawaii_zone_2"@),
        26763 => Some("PCS_NAD27_Hawaii_zone_3"@),
        26764 => Some("PCS_NAD27_Hawaii_zone_4"@),
        26765 => Some("PCS_NAD27_Hawaii_zone_5"@),
        26766 => Some("PCS_NAD27_Georgia_East"@),
        _ => None,
    }
}

/// The projected coordinate system names for the codes 26767 to 26915.
pub open spec fn projected_cs_type_names_26767_to_26915(code: u16) -> Option<Seq<char>> {
    match code {
        26767 => Some("PCS_NAD27_Georgia_West"@),
        26768 => Some("PCS_NAD27_Idaho_East"@),
        26769 => Some("PCS_NAD27_Idaho_Central"@),
        26770 => Some("PCS_NAD27_Idaho_West"@),
        26771 => Some("PCS_NAD27_Illinois_East"@),
        26772 => Some("PCS_NAD27_Illinois_West"@),
        26773 => Some("PCS_NAD27_Indiana_East"@),
        26774 => Some("PCS_NAD27_BLM_14N_feet"@),
        26775 => Some("PCS_NAD27_BLM_15N_feet"@),
        26776 => Some("PCS_NAD27_BLM_16N_feet"@),
        26777 => Some("PCS_NAD27_BLM_17N_feet"@),
        26778 => Some("PCS_NAD27_Kansas_South"@),
        26779 => Some("PCS_NAD27_Kentucky_North"@),
        26780 => Some("PCS_NAD27_Kentucky_South"@),
        26781 => Some("PCS_NAD27_Louisiana_North"@),
        26782 => Some("PCS_NAD27_Louisiana_South"@),
        26783 => Some("PCS_NAD27_Maine_East"@),
        26784 => Some("PCS_NAD27_Maine_West"@),
        26785 => Some("PCS_NAD27_Maryland"@),
        26786 => Some("PCS_NAD27_Massachusetts"@),
        26787 => Some("PCS_NAD27_Massachusetts_Is"@),
        26788 => Some("PCS_NAD27_Michigan_North"@),
        26789 => Some("PCS_NAD27_Michigan_Central"@),
        26790 => Some("PCS_NAD27_Michigan_South"@),
        26791 => Some("PCS_NAD27_Minnesota_North"@),
        26792 => Some("PCS_NAD27_Minnesota_Cent"@),
        26793 => Some("PCS_NAD27_Minnesota_South"@),
        26794 => Some("PCS_NAD27_Mississippi_East"@),
        26795 => Some("PCS_NAD27_Mississippi_West"@),
        26796 => Some("PCS_NAD27_Missouri_East"@),
        26797 => Some("PCS_NAD27_Missouri_Central"@),
        26798 => Some("PCS_NAD27_Missouri_West"@),
        26801 => Some("PCS_NAD_Michigan_Michigan_East"@),
        26802 => Some("PCS_NAD_Michigan_Michigan_Old_Central"@),
        26803 => Some("PCS_NAD_Michigan_Michigan_West"@),
        26903 => Some("PCS_NAD83_UTM_zone_3N"@),
        26904 => Some("PCS_NAD83_UTM_zone_4N"@),
        26905 => Some("PCS_NAD83_UTM_zone_5N"@),
        26906 => Some("PCS_NAD83_UTM_zone_6N"@),
        26907 => Some("PCS_NAD83_UTM_zone_7N"@),
        26908 => Some("PCS_NAD83_UTM_zone_8N"@),
        26909 => Some("PCS_NAD83_UTM_zone_9N"@),
        26910 => Some("PCS_NAD83_UTM_zone_10N"@),
        26911 => Some("PCS_NAD83_UTM_zone_11N"@),
        26912 => Some("PCS_NAD83_UTM_zone_12N"@),
        26913 => Some("PCS_NAD83_UTM_zone_13N"@),
        26914 => Some("PCS_NAD83_UTM_zone_14N"@),
        26915 => Some("PCS_NAD83_UTM_zone_15N"@),
        _ => None,
    }
}

/// The projected coordinate system names for the codes 26916 to 26969.
pub open spec fn projected_cs_type_names_26916_to_26969(code: u16) -> Option<Seq<char>> {
    match code {
        26916 => Some("PCS_NAD83_UTM_zone_16N"@),
        26917 => Some("PCS_NAD83_UTM_zone_17N"@),
        26918 => Some("PCS_NAD83_UTM_zone_18N"@),
        26919 => Some("PCS_NAD83_UTM_zone_19N"@),
        26920 => Some("PCS_NAD83_UTM_zone_20N"@),
        26921 => Some("PCS_NAD83_UTM_zone_21N"@),
        26922 => Some("PCS_NAD83_UTM_zone_22N"@),
        26923 => Some("PCS_NAD83_UTM_zone_23N"@),
        26929 => Some("PCS_NAD83_Alabama_East"@),
        26930 => Some("PCS_NAD83_Alabama_West"@),
        26931 => Some("PCS_NAD83_Alaska_zone_1"@),
        26932 => Some("PCS_NAD83_Alaska_zone_2"@),
        26933 => Some("PCS_NAD83_Alaska_zone_3"@),
        26934 => Some("PCS_NAD83_Alaska_zone_4"@),
        26935 => Some("PCS_NAD83_Alaska_zone_5"@),
        26936 => Some("PCS_NAD83_Alaska_zone_6"@),
        26937 => Some("PCS_NAD83_Alaska_zone_7"@),
        26938 => Some("PCS_NAD83_Alaska_zone_8"@),
        26939 => Some("PCS_NAD83_Alaska_zone_9"@),
        26940 => Some("PCS_NAD83_Alaska_zone_10"@),
        26941 => Some("PCS_NAD83_California_1"@),
        26942 => Some("PCS_NAD83_California_2"@),
        26943 => Some("PCS_NAD83_California_3"@),
        26944 => Some("PCS_NAD83_California_4"@),
        26945 => Some("PCS_NAD83_California_5"@),
        26946 => Some("PCS_NAD83_California_6"@),
        26948 => Some("PCS_NAD83_Arizona_East"@),
        26949 => Some("PCS_NAD83_Arizona_Central"@),
        26950 => Some("PCS_NAD83_Arizona_West"@),
        26951 => Some("PCS_NAD83_Arkansas_North"@),
        26952 => Some("PCS_NAD83_Arkansas_South"@),
        26953 => Some("PCS_NAD83_Colorado_North"@),
        26954 => Some("PCS_NAD83_Colorado_Central"@),
        26955 => Some("PCS_NAD83_Colorado_South"@),
        26956 => Some("PCS_NAD83_Connecticut"@),
        26957 => Some("PCS_NAD83_Delaware"@),
        26958 => Some("PCS_NAD83_Florida_East"@),
        26959 => Some("PCS_NAD83_Florida_West"@),
        26960 => Some("PCS_NAD83_Florida_North"@),
        26961 => Some("PCS_NAD83_Hawaii_zone_1"@),
        26962 => Some("PCS_NAD83_Hawaii_zone_2"@),
        26963 => Some("PCS_NAD83_Hawaii_zone_3"@),
        26964 => Some("PCS_NAD83_Hawaii_zone_4"@),
        26965 => Some("PCS_NAD83_Hawaii_zone_5"@),
        26966 => Some("PCS_NAD83_Georgia_East"@),
        26967 => Some("PCS_NAD83_Georgia_West"@),
        26968 => Some("PCS_NAD83_Idaho_East"@),
        26969 => Some("PCS_NAD83_Idaho_Central"@),
        _ => None,
    }
}

/// The projected coordinate system names for the codes 26970 to 28349.
pub open spec fn projected_cs_type_names_26970_to_28349(code: u16) -> Option<Seq<char>> {
    match code {
        26970 => Some("PCS_NAD83_Idaho_West"@),
        26971 => Some("PCS_NAD83_Illinois_East"@),
        26972 => Some("PCS_NAD83_Illinois_West"@),
        26973 => Some("PCS_NAD83_Indiana_East"@),
        26974 => Some("PCS_NAD83_Indiana_West"@),
        26975 => Some("PCS_NAD83_Iowa_North"@),
        26976 => Some("PCS_NAD83_Iowa_South"@),
        26977 => Some("PCS_NAD83_Kansas_North"@),
        26978 => Some("PCS_NAD83_Kansas_South"@),
        26979 => Some("PCS_NAD83_Kentucky_North"@),
        26980 => Some("PCS_NAD83_Kentucky_South"@),
        26981 => Some("PCS_NAD83_Louisiana_North"@),
        26982 => Some("PCS_NAD83_Louisiana_South"@),
        26983 => Some("PCS_NAD83_Maine_East"@),
        26984 => Some("PCS_NAD83_Maine_West"@),
        26985 => Some("PCS_NAD83_Maryland"@),
        26986 => Some("PCS_NAD83_Massachusetts"@),
        26987 => Some("PCS_NAD83_Massachusetts_Is"@),
        26988 => Some("PCS_NAD83_Michigan_North"@),
        26989 => Some("PCS_NAD83_Michigan_Central"@),
        26990 => Some("PCS_NAD83_Michigan_South"@),
        26991 => Some("PCS_NAD83_Minnesota_North"@),
        26992 => Some("PCS_NAD83_Minnesota_Cent"@),
        26993 => Some("PCS_NAD83_Minnesota_South"@),
        26994 => Some("PCS_NAD83_Mississippi_East"@),
        26995 => Some("PCS_NAD83_Mississippi_West"@),
        26996 => Some("PCS_NAD83_Missouri_East"@),
        26997 => Some("PCS_NAD83_Missouri_Central"@),
        26998 => Some("PCS_NAD83_Missouri_West"@),
        27038 => Some("PCS_Nahrwan_1967_UTM_38N"@),
        27039 => Some("PCS_Nahrwan_1967_UTM_39N"@),
        27040 => Some("PCS_Nahrwan_1967_UTM_40N"@),
        27120 => Some("PCS_Naparima_UTM_20N"@),
        27200 => Some("PCS_GD49_NZ_Map_Grid"@),
        27291 => Some("PCS_GD49_North_Island_Grid"@),
        27292 => Some("PCS_GD49_South_Island_Grid"@),
        27429 => Some("PCS_Datum_73_UTM_zone_29N"@),
        27500 => Some("PCS_ATF_Nord_de_Guerre"@),
        27581 => Some("PCS_NTF_France_I"@),
        27582 => Some("PCS_NTF_France_II"@),
        27583 => Some("PCS_NTF_France_III"@),
        27591 => Some("PCS_NTF_Nord_France"@),
        27592 => Some("PCS_NTF_Centre_France"@),
        27593 => Some("PCS_NTF_Sud_France"@),
        27700 => Some("PCS_British_National_Grid"@),
        28232 => Some("PCS_Point_Noire_UTM_32S"@),
        28348 => Some("PCS_GDA94_MGA_zone_48"@),
        28349 => Some("PCS_GDA94_MGA_zone_49"@),
        _ => None,
    }
}

/// The projected coordinate system names for the codes 28350 to 28473.
pub open spec fn projected_cs_type_names_28350_to_28473(code: u16) -> Option<Seq<char>> {
    match code {
        28350 => Some("PCS_GDA94_MGA_zone_50"@),
        28351 => Some("PCS_GDA94_MGA_zone_51"@),
        28352 => Some("PCS_GDA94_MGA_zone_52"@),
        28353 => Some("PCS_GDA94_MGA_zone_53"@),
        28354 => Some("PCS_GDA94_MGA_zone_54"@),
        28355 => Some("PCS_GDA94_MGA_zone_55"@),
        28356 => Some("PCS_GDA94_MGA_zone_56"@),
        28357 => Some("PCS_GDA94_MGA_zone_57"@),
        28358 => Some("PCS_GDA94_MGA_zone_58"@),
        28404 => Some("PCS_Pulkovo_Gauss_zone_4"@),
        28405 => Some("PCS_Pulkovo_Gauss_zone_5"@),
        28406 => Some("PCS_Pulkovo_Gauss_zone_6"@),
        28407 => Some("PCS_Pulkovo_Gauss_zone_7"@),
        28408 => Some("PCS_Pulkovo_Gauss_zone_8"@),
        28409 => Some("PCS_Pulkovo_Gauss_zone_9"@),
        28410 => Some("PCS_Pulkovo_Gauss_zone_10"@),
        28411 => Some("PCS_Pulkovo_Gauss_zone_11"@),
        28412 => Some("PCS_Pulkovo_Gauss_zone_12"@),
        28413 => Some("PCS_Pulkovo_Gauss_zone_13"@),
        28414 => Some("PCS_Pulkovo_Gauss_zone_14"@),
        28415 => Some("PCS_Pulkovo_Gauss_zone_15"@),
        28416 => Some("PCS_Pulkovo_Gauss_zone_16"@),
        28417 => Some("PCS_Pulkovo_Gauss_zone_17"@),
        28418 => Some("PCS_Pulkovo_Gauss_zone_18"@),
        28419 => Some("PCS_Pulkovo_Gauss_zone_19"@),
        28420 => Some("PCS_Pulkovo_Gauss_zone_20"@),
        28421 => Some("PCS_Pulkovo_Gauss_zone_21"@),
        28422 => Some("PCS_Pulkovo_Gauss_zone_22"@),
        28423 => Some("PCS_Pulkovo_Gauss_zone_23"@),
        28424 => Some("PCS_Pulkovo_Gauss_zone_24"@),
        28425 => Some("PCS_Pulkovo_Gauss_zone_25"@),
        28426 => Some("PCS_Pulkovo_Gauss_zone_26"@),
        28427 => Some("PCS_Pulkovo_Gauss_zone_27"@),
        28428 => Some("PCS_Pulkovo_Gauss_zone_28"@),
        28429 => Some("PCS_Pulkovo_Gauss_zone_29"@),
        28430 => Some("PCS_Pulkovo_Gauss_zone_30"@),
        28431 => Some("PCS_Pulkovo_Gauss_zone_31"@),
        28432 => Some("PCS_Pulkovo_Gauss_zone_32"@),
        28464 => Some("PCS_Pulkovo_Gauss_4N"@),
        28465 => Some("PCS_Pulkovo_Gauss_5N"@),
        28466 => Some("PCS_Pulkovo_Gauss_6N"@),
        28467 => Some("PCS_Pulkovo_Gauss_7N"@),
        28468 => Some("PCS_Pulkovo_Gauss_8N"@),
        28469 => Some("PCS_Pulkovo_Gauss_9N"@),
        28470 => Some("PCS_Pulkovo_Gauss_10N"@),
        28471 => Some("PCS_Pulkovo_Gauss_11N"@),
        28472 => Some("PCS_Pulkovo_Gauss_12N"@),
        28473 => Some("PCS_Pulkovo_Gauss_13N"@),
        _ => None,
    }
}

/// The projected coordinate system names for the codes 28474 to 29900.
pub open spec fn projected_cs_type_names_28474_to_29900(code: u16) -> Option<Seq<char>> {
    match code {
        28474 => Some("PCS_Pulkovo_Gauss_14N"@),
        28475 => Some("PCS_Pulkovo_Gauss_15N"@),
        28476 => Some("PCS_Pulkovo_Gauss_16N"@),
        28477 => Some("PCS_Pulkovo_Gauss_17N"@),
        28478 => Some("PCS_Pulkovo_Gauss_18N"@),
        28479 => Some("PCS_Pulkovo_Gauss_19N"@),
        28480 => Some("PCS_Pulkovo_Gauss_20N"@),
        28481 => Some("PCS_Pulkovo_Gauss_21N"@),
        28482 => Some("PCS_Pulkovo_Gauss_22N"@),
        28483 => Some("PCS_Pulkovo_Gauss_23N"@),
        28484 => Some("PCS_Pulkovo_Gauss_24N"@),
        28485 => Some("PCS_Pulkovo_Gauss_25N"@),
        28486 => Some("PCS_Pulkovo_Gauss_26N"@),
        28487 => Some("PCS_Pulkovo_Gauss_27N"@),
        28488 => Some("PCS_Pulkovo_Gauss_28N"@),
        28489 => Some("PCS_Pulkovo_Gauss_29N"@),
        28490 => Some("PCS_Pulkovo_Gauss_30N"@),
        28491 => Some("PCS_Pulkovo_Gauss_31N"@),
        28492 => Some("PCS_Pulkovo_Gauss_32N"@),
        28600 => Some("PCS_Qatar_National_Grid"@),
        28991 => Some("PCS_RD_Netherlands_Old"@),
        28992 => Some("PCS_RD_Netherlands_New"@),
        29118 => Some("PCS_SAD69_UTM_zone_18N"@),
        29119 => Some("PCS_SAD69_UTM_zone_19N"@),
        29120 => Some("PCS_SAD69_UTM_zone_20N"@),
        29121 => Some("PCS_SAD69_UTM_zone_21N"@),
        29122 => Some("PCS_SAD69_UTM_zone_22N"@),
        29177 => Some("PCS_SAD69_UTM_zone_17S"@),
        29178 => Some("PCS_SAD69_UTM_zone_18S"@),
        29179 => Some("PCS_SAD69_UTM_zone_19S"@),
        29180 => Some("PCS_SAD69_UTM_zone_20S"@),
        29181 => Some("PCS_SAD69_UTM_zone_21S"@),
        29182 => Some("PCS_SAD69_UTM_zone_22S"@),
        29183 => Some("PCS_SAD69_UTM_zone_23S"@),
        29184 => Some("PCS_SAD69_UTM_zone_24S"@),
        29185 => Some("PCS_SAD69_UTM_zone_25S"@),
        29220 => Some("PCS_Sapper_Hill_UTM_20S"@),
        29221 => Some("PCS_Sapper_Hill_UTM_21S"@),
        29333 => Some("PCS_Schwarzeck_UTM_33S"@),
        29635 => Some("PCS_Sudan_UTM_zone_35N"@),
        29636 => Some("PCS_Sudan_UTM_zone_36N"@),
        29700 => Some("PCS_Tananarive_Laborde"@),
        29738 => Some("PCS_Tananarive_UTM_38S"@),
        29739 => Some("PCS_Tananarive_UTM_39S"@),
        29800 => Some("PCS_Timbalai_1948_Borneo"@),
        29849 => Some("PCS_Timbalai_1948_UTM_49N"@),
        29850 => Some("PCS_Timbalai_1948_UTM_50N"@),
        29900 => Some("PCS_TM65_Irish_Nat_Grid"@),
        _ => None,
    }
}

/// The projected coordinate system names for the codes 30200 to 32026.
pub open spec fn projected_cs_type_names_30200_to_32026(code: u16) -> Option<Seq<char>> {
    match code {
        30200 => Some("PCS_Trinidad_1903_Trinidad"@),
        30339 => Some("PCS_TC_1948_UTM_zone_39N"@),
        30340 => Some("PCS_TC_1948_UTM_zone_40N"@),
        30491 => Some("PCS_Voirol_N_Algerie_ancien"@),
        30492 => Some("PCS_Voirol_S_Algerie_ancien"@),
        30591 => Some("PCS_Voirol_Unifie_N_Algerie"@),
        30592 => Some("PCS_Voirol_Unifie_S_Algerie"@),
        30600 => Some("PCS_Bern_1938_Swiss_New"@),
        30729 => Some("PCS_Nord_Sahara_UTM_29N"@),
        30730 => Some("PCS_Nord_Sahara_UTM_30N"@),
        30731 => Some("PCS_Nord_Sahara_UTM_31N"@),
        30732 => Some("PCS_Nord_Sahara_UTM_32N"@),
        31028 => Some("PCS_Yoff_UTM_zone_28N"@),
        31121 => Some("PCS_Zanderij_UTM_zone_21N"@),
        31291 => Some("PCS_MGI_Austria_West"@),
        31292 => Some("PCS_MGI_Austria_Central"@),
        31293 => Some("PCS_MGI_Austria_East"@),
        31300 => Some("PCS_Belge_Lambert_72"@),
        31491 => Some("PCS_DHDN_Germany_zone_1"@),
        31492 => Some("PCS_DHDN_Germany_zone_2"@),
        31493 => Some("PCS_DHDN_Germany_zone_3"@),
        31494 => Some("PCS_DHDN_Germany_zone_4"@),
        31495 => Some("PCS_DHDN_Germany_zone_5"@),
        32001 => Some("PCS_NAD27_Montana_North"@),
        32002 => Some("PCS_NAD27_Montana_Central"@),
        32003 => Some("PCS_NAD27_Montana_South"@),
        32005 => Some("PCS_NAD27_Nebraska_North"@),
        32006 => Some("PCS_NAD27_Nebraska_South"@),
        32007 => Some("PCS_NAD27_Nevada_East"@),
        32008 => Some("PCS_NAD27_Nevada_Central"@),
        32009 => Some("PCS_NAD27_Nevada_West"@),
        32010 => Some("PCS_NAD27_New_Hampshire"@),
        32011 => Some("PCS_NAD27_New_Jersey"@),
        32012 => Some("PCS_NAD27_New_Mexico_East"@),
        32013 => Some("PCS_NAD27_New_Mexico_Cent"@),
        32014 => Some("PCS_NAD27_New_Mexico_West"@),
        32015 => Some("PCS_NAD27_New_York_East"@),
        32016 => Some("PCS_NAD27_New_York_Central"@),
        32017 => Some("PCS_NAD27_New_York_West"@),
        32018 => Some("PCS_NAD27_New_York_Long_Is"@),
        32019 => Some("PCS_NAD27_North_Carolina"@),
        32020 => Some("PCS_NAD27_North_Dakota_N"@),
        32021 => Some("PCS_NAD27_North_Dakota_S"@),
        32022 => Some("PCS_NAD27_Ohio_North"@),
        32023 => Some("PCS_NAD27_Ohio_South"@),
        32024 => Some("PCS_NAD27_Oklahoma_North"@),
        32025 => Some("PCS_NAD27_Oklahoma_South"@),
        32026 => Some("PCS_NAD27_Oregon_North"@),
        _ => None,
    }
}

/// The projected coordinate system names for the codes 32027 to 32119.
pub open spec fn projected_cs_type_names_32027_to_32119(code: u16) -> Option<Seq<char>> {
    match code {
        32027 => Some("PCS_NAD27_Oregon_South"@),
        32028 => Some("PCS_NAD27_Pennsylvania_N"@),
        32029 => Some("PCS_NAD27_Pennsylvania_S"@),
        32030 => Some("PCS_NAD27_Rhode_Island"@),
        32031 => Some("PCS_NAD27_South_Carolina_N"@),
        32033 => Some("PCS_NAD27_South_Carolina_S"@),
        32034 => Some("PCS_NAD27_South_Dakota_N"@),
        32035 => Some("PCS_NAD27_South_Dakota_S"@),
        32036 => Some("PCS_NAD27_Tennessee"@),
        32037 => Some("PCS_NAD27_Texas_North"@),
        32038 => Some("PCS_NAD27_Texas_North_Cen"@),
        32039 => Some("PCS_NAD27_Texas_Central"@),
        32040 => Some("PCS_NAD27_Texas_South_Cen"@),
        32041 => Some("PCS_NAD27_Texas_South"@),
        32042 => Some("PCS_NAD27_Utah_North"@),
        32043 => Some("PCS_NAD27_Utah_Central"@),
        32044 => Some("PCS_NAD27_Utah_South"@),
        32045 => Some("PCS_NAD27_Vermont"@),
        32046 => Some("PCS_NAD27_Virginia_North"@),
        32047 => Some("PCS_NAD27_Virginia_South"@),
        32048 => Some("PCS_NAD27_Washington_North"@),
        32049 => Some("PCS_NAD27_Washington_South"@),
        32050 => Some("PCS_NAD27_West_Virginia_N"@),
        32051 => Some("PCS_NAD27_West_Virginia_S"@),
        32052 => Some("PCS_NAD27_Wisconsin_North"@),
        32053 => Some("PCS_NAD27_Wisconsin_Cen"@),
        32054 => Some("PCS_NAD27_Wisconsin_South"@),
        32055 => Some("PCS_NAD27_Wyoming_East"@),
        32056 => Some("PCS_NAD27_Wyoming_E_Cen"@),
        32057 => Some("PCS_NAD27_Wyoming_W_Cen"@),
        32058 => Some("PCS_NAD27_Wyoming_West"@),
        32059 => Some("PCS_NAD27_Puerto_Rico"@),
        32060 => Some("PCS_NAD27_St_Croix"@),
        32100 => Some("PCS_NAD83_Montana"@),
        32104 => Some("PCS_NAD83_Nebraska"@),
        32107 => Some("PCS_NAD83_Nevada_East"@),
        32108 => Some("PCS_NAD83_Nevada_Central"@),
        32109 => Some("PCS_NAD83_Nevada_West"@),
        32110 => Some("PCS_NAD83_New_Hampshire"@),
        32111 => Some("PCS_NAD83_New_Jersey"@),
        32112 => Some("PCS_NAD83_New_Mexico_East"@),
        32113 => Some("PCS_NAD83_New_Mexico_Cent"@),
        32114 => Some("PCS_NAD83_New_Mexico_West"@),
        32115 => Some("PCS_NAD83_New_York_East"@),
        32116 => Some("PCS_NAD83_New_York_Central"@),
        32117 => Some("PCS_NAD83_New_York_West"@),
        32118 => Some("PCS_NAD83_New_York_Long_Is"@),
        32119 => Some("PCS_NAD83_North_Carolina"@),
        _ => None,
    }
}

/// The projected coordinate system names for the codes 32120 to 32210.
pub open spec fn projected_cs_type_names_32120_to_32210(code: u16) -> Option<Seq<char>> {
    match code {
        32120 => Some("PCS_NAD83_North_Dakota_N"@),
        32121 => Some("PCS_NAD83_North_Dakota_S"@),
        32122 => Some("PCS_NAD83_Ohio_North"@),
        32123 => Some("PCS_NAD83_Ohio_South"@),
        32124 => Some("PCS_NAD83_Oklahoma_North"@),
        32125 => Some("PCS_NAD83_Oklahoma_South"@),
        32126 => Some("PCS_NAD83_Oregon_North"@),
        32127 => Some("PCS_NAD83_Oregon_South"@),
        32128 => Some("PCS_NAD83_Pennsylvania_N"@),
        32129 => Some("PCS_NAD83_Pennsylvania_S"@),
        32130 => Some("PCS_NAD83_Rhode_Island"@),
        32133 => Some("PCS_NAD83_South_Carolina"@),
        32134 => Some("PCS_NAD83_South_Dakota_N"@),
        32135 => Some("PCS_NAD83_South_Dakota_S"@),
        32136 => Some("PCS_NAD83_Tennessee"@),
        32137 => Some("PCS_NAD83_Texas_North"@),
        32138 => Some("PCS_NAD83_Texas_North_Cen"@),
        32139 => Some("PCS_NAD83_Texas_Central"@),
        32140 => Some("PCS_NAD83_Texas_South_Cen"@),
        32141 => Some("PCS_NAD83_Texas_South"@),
        32142 => Some("PCS_NAD83_Utah_North"@),
        32143 => Some("PCS_NAD83_Utah_Central"@),
        32144 => Some("PCS_NAD83_Utah_South"@),
        32145 => Some("PCS_NAD83_Vermont"@),
        32146 => Some("PCS_NAD83_Virginia_North"@),
        32147 => Some("PCS_NAD83_Virginia_South"@),
        32148 => Some("PCS_NAD83_Washington_North"@),
        32149 => Some("PCS_NAD83_Washington_South"@),
        32150 => Some("PCS_NAD83_West_Virginia_N"@),
        32151 => Some("PCS_NAD83_West_Virginia_S"@),
        32152 => Some("PCS_NAD83_Wisconsin_North"@),
        32153 => Some("PCS_NAD83_Wisconsin_Cen"@),
        32154 => Some("PCS_NAD83_Wisconsin_South"@),
        32155 => Some("PCS_NAD83_Wyoming_East"@),
        32156 => Some("PCS_NAD83_Wyoming_E_Cen"@),
        32157 => Some("PCS_NAD83_Wyoming_W_Cen"@),
        32158 => Some("PCS_NAD83_Wyoming_West"@),
        32161 => Some("PCS_NAD83_Puerto_Rico_Virgin_Is"@),
        32201 => Some("PCS_WGS72_UTM_zone_1N"@),
        32202 => Some("PCS_WGS72_UTM_zone_2N"@),
        32203 => Some("PCS_WGS72_UTM_zone_3N"@),
        32204 => Some("PCS_WGS72_UTM_zone_4N"@),
        32205 => Some("PCS_WGS72_UTM_zone_5N"@),
        32206 => Some("PCS_WGS72_UTM_zone_6N"@),
        32207 => Some("PCS_WGS72_UTM_zone_7N"@),
        32208 => Some("PCS_WGS72_UTM_zone_8N"@),
        32209 => Some("PCS_WGS72_UTM_zone_9N"@),
        32210 => Some("PCS_WGS72_UTM_zone_10N"@),
        _ => None,
    }
}

/// The projected coordinate system names for the codes 32211 to 32258.
pub open spec fn projected_cs_type_names_32211_to_32258(code: u16) -> Option<Seq<char>> {
    match code {
        32211 => Some("PCS_WGS72_UTM_zone_11N"@),
        32212 => Some("PCS_WGS72_UTM_zone_12N"@),
        32213 => Some("PCS_WGS72_UTM_zone_13N"@),
        32214 => Some("PCS_WGS72_UTM_zone_14N"@),
        32215 => Some("PCS_WGS72_UTM_zone_15N"@),
        32216 => Some("PCS_WGS72_UTM_zone_16N"@),
        32217 => Some("PCS_WGS72_UTM_zone_17N"@),
        32218 => Some("PCS_WGS72_UTM_zone_18N"@),
        32219 => Some("PCS_WGS72_UTM_zone_19N"@),
        32220 => Some("PCS_WGS72_UTM_zone_20N"@),
        32221 => Some("PCS_WGS72_UTM_zone_21N"@),
        32222 => Some("PCS_WGS72_UTM_zone_22N"@),
        32223 => Some("PCS_WGS72_UTM_zone_23N"@),
        32224 => Some("PCS_WGS72_UTM_zone_24N"@),
        32225 => Some("PCS_WGS72_UTM_zone_25N"@),
        32226 => Some("PCS_WGS72_UTM_zone_26N"@),
        32227 => Some("PCS_WGS72_UTM_zone_27N"@),
        32228 => Some("PCS_WGS72_UTM_zone_28N"@),
        32229 => Some("PCS_WGS72_UTM_zone_29N"@),
        32230 => Some("PCS_WGS72_UTM_zone_30N"@),
        32231 => Some("PCS_WGS72_UTM_zone_31N"@),
        32232 => Some("PCS_WGS72_UTM_zone_32N"@),
        32233 => Some("PCS_WGS72_UTM_zone_33N"@),
        32234 => Some("PCS_WGS72_UTM_zone_34N"@),
        32235 => Some("PCS_WGS72_UTM_zone_35N"@),
        32236 => Some("PCS_WGS72_UTM_zone_36N"@),
        32237 => Some("PCS_WGS72_UTM_zone_37N"@),
        32238 => Some("PCS_WGS72_UTM_zone_38N"@),
        32239 => Some("PCS_WGS72_UTM_zone_39N"@),
        32240 => Some("PCS_WGS72_UTM_zone_40N"@),
        32241 => Some("PCS_WGS72_UTM_zone_41N"@),
        32242 => Some("PCS_WGS72_UTM_zone_42N"@),
        32243 => Some("PCS_WGS72_UTM_zone_43N"@),
        32244 => Some("PCS_WGS72_UTM_zone_44N"@),
        32245 => Some("PCS_WGS72_UTM_zone_45N"@),
        32246 => Some("PCS_WGS72_UTM_zone_46N"@),
        32247 => Some("PCS_WGS72_UTM_zone_47N"@),
        32248 => Some("PCS_WGS72_UTM_zone_48N"@),
        32249 => Some("PCS_WGS72_UTM_zone_49N"@),
        32250 => Some("PCS_WGS72_UTM_zone_50N"@),
        32251 => Some("PCS_WGS72_UTM_zone_51N"@),
        32252 => Some("PCS_WGS72_UTM_zone_52N"@),
        32253 => Some("PCS_WGS72_UTM_zone_53N"@),
        32254 => Some("PCS_WGS72_UTM_zone_54N"@),
        32255 => Some("PCS_WGS72_UTM_zone_55N"@),
        32256 => Some("PCS_WGS72_UTM_zone_56N"@),
        32257 => Some("PCS_WGS72_UTM_zone_57N"@),
        32258 => Some("PCS_WGS72_UTM_zone_58N"@),
        _ => None,
    }
}

/// The projected coordinate system names for the codes 32259 to 32346.
pub open spec fn projected_cs_type_names_32259_to_32346(code: u16) -> Option<Seq<char>> {
    match code {
        32259 => Some("PCS_WGS72_UTM_zone_59N"@),
        32260 => Some("PCS_WGS72_UTM_zone_60N"@),
        32301 => Some("PCS_WGS72_UTM_zone_1S"@),
        32302 => Some("PCS_WGS72_UTM_zone_2S"@),
        32303 => Some("PCS_WGS72_UTM_zone_3S"@),
        32304 => Some("PCS_WGS72_UTM_zone_4S"@),
        32305 => Some("PCS_WGS72_UTM_zone_5S"@),
        32306 => Some("PCS_WGS72_UTM_zone_6S"@),
        32307 => Some("PCS_WGS72_UTM_zone_7S"@),
        32308 => Some("PCS_WGS72_UTM_zone_8S"@),
        32309 => Some("PCS_WGS72_UTM_zone_9S"@),
        32310 => Some("PCS_WGS72_UTM_zone_10S"@),
        32311 => Some("PCS_WGS72_UTM_zone_11S"@),
        32312 => Some("PCS_WGS72_UTM_zone_12S"@),
        32313 => Some("PCS_WGS72_UTM_zone_13S"@),
        32314 => Some("PCS_WGS72_UTM_zone_14S"@),
        32315 => Some("PCS_WGS72_UTM_zone_15S"@),
        32316 => Some("PCS_WGS72_UTM_zone_16S"@),
        32317 => Some("PCS_WGS72_UTM_zone_17S"@),
        32318 => Some("PCS_WGS72_UTM_zone_18S"@),
        32319 => Some("PCS_WGS72_UTM_zone_19S"@),
        32320 => Some("PCS_WGS72_UTM_zone_20S"@),
        32321 => Some("PCS_WGS72_UTM_zone_21S"@),
        32322 => Some("PCS_WGS72_UTM_zone_22S"@),
        32323 => Some("PCS_WGS72_UTM_zone_23S"@),
        32324 => Some("PCS_WGS72_UTM_zone_24S"@),
        32325 => Some("PCS_WGS72_UTM_zone_25S"@),
        32326 => Some("PCS_WGS72_UTM_zone_26S"@),
        32327 => Some("PCS_WGS72_UTM_zone_27S"@),
        32328 => Some("PCS_WGS72_UTM_zone_28S"@),
        32329 => Some("PCS_WGS72_UTM_zone_29S"@),
        32330 => Some("PCS_WGS72_UTM_zone_30S"@),
        32331 => Some("PCS_WGS72_UTM_zone_31S"@),
        32332 => Some("PCS_WGS72_UTM_zone_32S"@),
        32333 => Some("PCS_WGS72_UTM_zone_33S"@),
        32334 => Some("PCS_WGS72_UTM_zone_34S"@),
        32335 => Some("PCS_WGS72_UTM_zone_35S"@),
        32336 => Some("PCS_WGS72_UTM_zone_36S"@),
        32337 => Some("PCS_WGS72_UTM_zone_37S"@),
        32338 => Some("PCS_WGS72_UTM_zone_38S"@),
        32339 => Some("PCS_WGS72_UTM_zone_39S"@),
        32340 => Some("PCS_WGS72_UTM_zone_40S"@),
        32341 => Some("PCS_WGS72_UTM_zone_41S"@),
        32342 => Some("PCS_WGS72_UTM_zone_42S"@),
        32343 => Some("PCS_WGS72_UTM_zone_43S"@),
        32344 => Some("PCS_WGS72_UTM_zone_44S"@),
        32345 => Some("PCS_WGS72_UTM_zone_45S"@),
        32346 => Some("PCS_WGS72_UTM_zone_46S"@),
        _ => None,
    }
}

/// The projected coordinate system names for the codes 32347 to 32434.
pub open spec fn projected_cs_type_names_32347_to_32434(code: u16) -> Option<Seq<char>> {
    match code {
        32347 => Some("PCS_WGS72_UTM_zone_47S"@),
        32348 => Some("PCS_WGS72_UTM_zone_48S"@),
        32349 => Some("PCS_WGS72_UTM_zone_49S"@),
        32350 => Some("PCS_WGS72_UTM_zone_50S"@),
        32351 => Some("PCS_WGS72_UTM_zone_51S"@),
        32352 => Some("PCS_WGS72_UTM_zone_52S"@),
        32353 => Some("PCS_WGS72_UTM_zone_53S"@),
        32354 => Some("PCS_WGS72_UTM_zone_54S"@),
        32355 => Some("PCS_WGS72_UTM_zone_55S"@),
        32356 => Some("PCS_WGS72_UTM_zone_56S"@),
        32357 => Some("PCS_WGS72_UTM_zone_57S"@),
        32358 => Some("PCS_WGS72_UTM_zone_58S"@),
        32359 => Some("PCS_WGS72_UTM_zone_59S"@),
        32360 => Some("PCS_WGS72_UTM_zone_60S"@),
        32401 => Some("PCS_WGS72BE_UTM_zone_1N"@),
        32402 => Some("PCS_WGS72BE_UTM_zone_2N"@),
        32403 => Some("PCS_WGS72BE_UTM_zone_3N"@),
        32404 => Some("PCS_WGS72BE_UTM_zone_4N"@),
        32405 => Some("PCS_WGS72BE_UTM_zone_5N"@),
        32406 => Some("PCS_WGS72BE_UTM_zone_6N"@),
        32407 => Some("PCS_WGS72BE_UTM_zone_7N"@),
        32408 => Some("PCS_WGS72BE_UTM_zone_8N"@),
        32409 => Some("PCS_WGS72BE_UTM_zone_9N"@),
        32410 => Some("PCS_WGS72BE_UTM_zone_10N"@),
        32411 => Some("PCS_WGS72BE_UTM_zone_11N"@),
        32412 => Some("PCS_WGS72BE_UTM_zone_12N"@),
        32413 => Some("PCS_WGS72BE_UTM_zone_13N"@),
        32414 => Some("PCS_WGS72BE_UTM_zone_14N"@),
        32415 => Some("PCS_WGS72BE_UTM_zone_15N"@),
        32416 => Some("PCS_WGS72BE_UTM_zone_16N"@),
        32417 => Some("PCS_WGS72BE_UTM_zone_17N"@),
        32418 => Some("PCS_WGS72BE_UTM_zone_18N"@),
        32419 => Some("PCS_WGS72BE_UTM_zone_19N"@),
        32420 => Some("PCS_WGS72BE_UTM_zone_20N"@),
        32421 => Some("PCS_WGS72BE_UTM_zone_21N"@),
        32422 => Some("PCS_WGS72BE_UTM_zone_22N"@),
        32423 => Some("PCS_WGS72BE_UTM_zone_23N"@),
        32424 => Some("PCS_WGS72BE_UTM_zone_24N"@),
        32425 => Some("PCS_WGS72BE_UTM_zone_25N"@),
        32426 => Some("PCS_WGS72BE_UTM_zone_26N"@),
        32427 => Some("PCS_WGS72BE_UTM_zone_27N"@),
        32428 => Some("PCS_WGS72BE_UTM_zone_28N"@),
        32429 => Some("PCS_WGS72BE_UTM_zone_29N"@),
        32430 => Some("PCS_WGS72BE_UTM_zone_30N"@),
        32431 => Some("PCS_WGS72BE_UTM_zone_31N"@),
        32432 => Some("PCS_WGS72BE_UTM_zone_32N"@),
        32433 => Some("PCS_WGS72BE_UTM_zone_33N"@),
        32434 => Some("PCS_WGS72BE_UTM_zone_34N"@),
        _ => None,
    }
}

/// The projected coordinate system names for the codes 32435 to 32522.
pub open spec fn projected_cs_type_names_32435_to_32522(code: u16) -> Option<Seq<char>> {
    match code {
        32435 => Some("PCS_WGS72BE_UTM_zone_35N"@),
        32436 => Some("PCS_WGS72BE_UTM_zone_36N"@),
        32437 => Some("PCS_WGS72BE_UTM_zone_37N"@),
        32438 => Some("PCS_WGS72BE_UTM_zone_38N"@),
        32439 => Some("PCS_WGS72BE_UTM_zone_39N"@),
        32440 => Some("PCS_WGS72BE_UTM_zone_40N"@),
        32441 => Some("PCS_WGS72BE_UTM_zone_41N"@),
        32442 => Some("PCS_WGS72BE_UTM_zone_42N"@),
        32443 => Some("PCS_WGS72BE_UTM_zone_43N"@),
        32444 => Some("PCS_WGS72BE_UTM_zone_44N"@),
        32445 => Some("PCS_WGS72BE_UTM_zone_45N"@),
        32446 => Some("PCS_WGS72BE_UTM_zone_46N"@),
        32447 => Some("PCS_WGS72BE_UTM_zone_47N"@),
        32448 => Some("PCS_WGS72BE_UTM_zone_48N"@),
        32449 => Some("PCS_WGS72BE_UTM_zone_49N"@),
        32450 => Some("PCS_WGS72BE_UTM_zone_50N"@),
        32451 => Some("PCS_WGS72BE_UTM_zone_51N"@),
        32452 => Some("PCS_WGS72BE_UTM_zone_52N"@),
        32453 => Some("PCS_WGS72BE_UTM_zone_53N"@),
        32454 => Some("PCS_WGS72BE_UTM_zone_54N"@),
        32455 => Some("PCS_WGS72BE_UTM_zone_55N"@),
        32456 => Some("PCS_WGS72BE_UTM_zone_56N"@),
        32457 => Some("PCS_WGS72BE_UTM_zone_57N"@),
        32458 => Some("PCS_WGS72BE_UTM_zone_58N"@),
        32459 => Some("PCS_WGS72BE_UTM_zone_59N"@),
        32460 => Some("PCS_WGS72BE_UTM_zone_60N"@),
        32501 => Some("PCS_WGS72BE_UTM_zone_1S"@),
        32502 => Some("PCS_WGS72BE_UTM_zone_2S"@),
        32503 => Some("PCS_WGS72BE_UTM_zone_3S"@),
        32504 => Some("PCS_WGS72BE_UTM_zone_4S"@),
        32505 => Some("PCS_WGS72BE_UTM_zone_5S"@),
        32506 => Some("PCS_WGS72BE_UTM_zone_6S"@),
        32507 => Some("PCS_WGS72BE_UTM_zone_7S"@),
        32508 => Some("PCS_WGS72BE_UTM_zone_8S"@),
        32509 => Some("PCS_WGS72BE_UTM_zone_9S"@),
        32510 => Some("PCS_WGS72BE_UTM_zone_10S"@),
        32511 => Some("PCS_WGS72BE_UTM_zone_11S"@),
        32512 => Some("PCS_WGS72BE_UTM_zone_12S"@),
        32513 => Some("PCS_WGS72BE_UTM_zone_13S"@),
        32514 => Some("PCS_WGS72BE_UTM_zone_14S"@),
        32515 => Some("PCS_WGS72BE_UTM_zone_15S"@),
        32516 => Some("PCS_WGS72BE_UTM_zone_16S"@),
        32517 => Some("PCS_WGS72BE_UTM_zone_17S"@),
        32518 => Some("PCS_WGS72BE_UTM_zone_18S"@),
        32519 => Some("PCS_WGS72BE_UTM_zone_19S"@),
        32520 => Some("PCS_WGS72BE_UTM_zone_20S"@),
        32521 => Some("PCS_WGS72BE_UTM_zone_21S"@),
        32522 => Some("PCS_WGS72BE_UTM_zone_22S"@),
        _ => None,
    }
}

/// The projected coordinate system names for the codes 32523 to 32610.
pub open spec fn projected_cs_type_names_32523_to_32610(code: u16) -> Option<Seq<char>> {
    match code {
        32523 => Some("PCS_WGS72BE_UTM_zone_23S"@),
        32524 => Some("PCS_WGS72BE_UTM_zone_24S"@),
        32525 => Some("PCS_WGS72BE_UTM_zone_25S"@),
        32526 => Some("PCS_WGS72BE_UTM_zone_26S"@),
        32527 => Some("PCS_WGS72BE_UTM_zone_27S"@),
        32528 => Some("PCS_WGS72BE_UTM_zone_28S"@),
        32529 => Some("PCS_WGS72BE_UTM_zone_29S"@),
        32530 => Some("PCS_WGS72BE_UTM_zone_30S"@),
        32531 => Some("PCS_WGS72BE_UTM_zone_31S"@),
        32532 => Some("PCS_WGS72BE_UTM_zone_32S"@),
        32533 => Some("PCS_WGS72BE_UTM_zone_33S"@),
        32534 => Some("PCS_WGS72BE_UTM_zone_34S"@),
        32535 => Some("PCS_WGS72BE_UTM_zone_35S"@),
        32536 => Some("PCS_WGS72BE_UTM_zone_36S"@),
        32537 => Some("PCS_WGS72BE_UTM_zone_37S"@),
        32538 => Some("PCS_WGS72BE_UTM_zone_38S"@),
        32539 => Some("PCS_WGS72BE_UTM_zone_39S"@),
        32540 => Some("PCS_WGS72BE_UTM_zone_40S"@),
        32541 => Some("PCS_WGS72BE_UTM_zone_41S"@),
        32542 => Some("PCS_WGS72BE_UTM_zone_42S"@),
        32543 => Some("PCS_WGS72BE_UTM_zone_43S"@),
        32544 => Some("PCS_WGS72BE_UTM_zone_44S"@),
        32545 => Some("PCS_WGS72BE_UTM_zone_45S"@),
        32546 => Some("PCS_WGS72BE_UTM_zone_46S"@),
        32547 => Some("PCS_WGS72BE_UTM_zone_47S"@),
        32548 => Some("PCS_WGS72BE_UTM_zone_48S"@),
        32549 => Some("PCS_WGS72BE_UTM_zone_49S"@),
        32550 => Some("PCS_WGS72BE_UTM_zone_50S"@),
        32551 => Some("PCS_WGS72BE_UTM_zone_51S"@),
        32552 => Some("PCS_WGS72BE_UTM_zone_52S"@),
        32553 => Some("PCS_WGS72BE_UTM_zone_53S"@),
        32554 => Some("PCS_WGS72BE_UTM_zone_54S"@),
        32555 => Some("PCS_WGS72BE_UTM_zone_55S"@),
        32556 => Some("PCS_WGS72BE_UTM_zone_56S"@),
        32557 => Some("PCS_WGS72BE_UTM_zone_57S"@),
        32558 => Some("PCS_WGS72BE_UTM_zone_58S"@),
        32559 => Some("PCS_WGS72BE_UTM_zone_59S"@),
        32560 => Some("PCS_WGS72BE_UTM_zone_60S"@),
        32601 => Some("PCS_WGS84_UTM_zone_1N"@),
        32602 => Some("PCS_WGS84_UTM_zone_2N"@),
        32603 => Some("PCS_WGS84_UTM_zone_3N"@),
        32604 => Some("PCS_WGS84_UTM_zone_4N"@),
        32605 => Some("PCS_WGS84_UTM_zone_5N"@),
        32606 => Some("PCS_WGS84_UTM_zone_6N"@),
        32607 => Some("PCS_WGS84_UTM_zone_7N"@),
        32608 => Some("PCS_WGS84_UTM_zone_8N"@),
        32609 => Some("PCS_WGS84_UTM_zone_9N"@),
        32610 => Some("PCS_WGS84_UTM_zone_10N"@),
        _ => None,
    }
}

/// The projected coordinate system names for the codes 32611 to 32658.
pub open spec fn projected_cs_type_names_32611_to_32658(code: u16) -> Option<Seq<char>> {
    match code {
        32611 => Some("PCS_WGS84_UTM_zone_11N"@),
        32612 => Some("PCS_WGS84_UTM_zone_12N"@),
        32613 => Some("PCS_WGS84_UTM_zone_13N"@),
        32614 => Some("PCS_WGS84_UTM_zone_14N"@),
        32615 => Some("PCS_WGS84_UTM_zone_15N"@),
        32616 => Some("PCS_WGS84_UTM_zone_16N"@),
        32617 => Some("PCS_WGS84_UTM_zone_17N"@),
        32618 => Some("PCS_WGS84_UTM_zone_18N"@),
        32619 => Some("PCS_WGS84_UTM_zone_19N"@),
        32620 => Some("PCS_WGS84_UTM_zone_20N"@),
        32621 => Some("PCS_WGS84_UTM_zone_21N"@),
        32622 => Some("PCS_WGS84_UTM_zone_22N"@),
        32623 => Some("PCS_WGS84_UTM_zone_23N"@),
        32624 => Some("PCS_WGS84_UTM_zone_24N"@),
        32625 => Some("PCS_WGS84_UTM_zone_25N"@),
        32626 => Some("PCS_WGS84_UTM_zone_26N"@),
        32627 => Some("PCS_WGS84_UTM_zone_27N"@),
        32628 => Some("PCS_WGS84_UTM_zone_28N"@),
        32629 => Some("PCS_WGS84_UTM_zone_29N"@),
        32630 => Some("PCS_WGS84_UTM_zone_30N"@),
        32631 => Some("PCS_WGS84_UTM_zone_31N"@),
        32632 => Some("PCS_WGS84_UTM_zone_32N"@),
        32633 => Some("PCS_WGS84_UTM_zone_33N"@),
        32634 => Some("PCS_WGS84_UTM_zone_34N"@),
        32635 => Some("PCS_WGS84_UTM_zone_35N"@),
        32636 => Some("PCS_WGS84_UTM_zone_36N"@),
        32637 => Some("PCS_WGS84_UTM_zone_37N"@),
        32638 => Some("PCS_WGS84_UTM_zone_38N"@),
        32639 => Some("PCS_WGS84_UTM_zone_39N"@),
        32640 => Some("PCS_WGS84_UTM_zone_40N"@),
        32641 => Some("PCS_WGS84_UTM_zone_41N"@),
        32642 => Some("PCS_WGS84_UTM_zone_42N"@),
        32643 => Some("PCS_WGS84_UTM_zone_43N"@),
        32644 => Some("PCS_WGS84_UTM_zone_44N"@),
        32645 => Some("PCS_WGS84_UTM_zone_45N"@),
        32646 => Some("PCS_WGS84_UTM_zone_46N"@),
        32647 => Some("PCS_WGS84_UTM_zone_47N"@),
        32648 => Some("PCS_WGS84_UTM_zone_48N"@),
        32649 => Some("PCS_WGS84_UTM_zone_49N"@),
        32650 => Some("PCS_WGS84_UTM_zone_50N"@),
        32651 => Some("PCS_WGS84_UTM_zone_51N"@),
        32652 => Some("PCS_WGS84_UTM_zone_52N"@),
        32653 => Some("PCS_WGS84_UTM_zone_53N"@),
        32654 => Some("PCS_WGS84_UTM_zone_54N"@),
        32655 => Some("PCS_WGS84_UTM_zone_55N"@),
        32656 => Some("PCS_WGS84_UTM_zone_56N"@),
        32657 => Some("PCS_WGS84_UTM_zone_57N"@),
        32658 => Some("PCS_WGS84_UTM_zone_58N"@),
        _ => None,
    }
}

/// The projected coordinate system names for the codes 32659 to 32746.
pub open spec fn projected_cs_type_names_32659_to_32746(code: u16) -> Option<Seq<char>> {
    match code {
        32659 => Some("PCS_WGS84_UTM_zone_59N"@),
        32660 => Some("PCS_WGS84_UTM_zone_60N"@),
        32701 => Some("PCS_WGS84_UTM_zone_1S"@),
        32702 => Some("PCS_WGS84_UTM_zone_2S"@),
        32703 => Some("PCS_WGS84_UTM_zone_3S"@),
        32704 => Some("PCS_WGS84_UTM_zone_4S"@),
        32705 => Some("PCS_WGS84_UTM_zone_5S"@),
        32706 => Some("PCS_WGS84_UTM_zone_6S"@),
        32707 => Some("PCS_WGS84_UTM_zone_7S"@),
        32708 => Some("PCS_WGS84_UTM_zone_8S"@),
        32709 => Some("PCS_WGS84_UTM_zone_9S"@),
        32710 => Some("PCS_WGS84_UTM_zone_10S"@),
        32711 => Some("PCS_WGS84_UTM_zone_11S"@),
        32712 => Some("PCS_WGS84_UTM_zone_12S"@),
        32713 => Some("PCS_WGS84_UTM_zone_13S"@),
        32714 => Some("PCS_WGS84_UTM_zone_14S"@),
        32715 => Some("PCS_WGS84_UTM_zone_15S"@),
        32716 => Some("PCS_WGS84_UTM_zone_16S"@),
        32717 => Some("PCS_WGS84_UTM_zone_17S"@),
        32718 => Some("PCS_WGS84_UTM_zone_18S"@),
        32719 => Some("PCS_WGS84_UTM_zone_19S"@),
        32720 => Some("PCS_WGS84_UTM_zone_20S"@),
        32721 => Some("PCS_WGS84_UTM_zone_21S"@),
        32722 => Some("PCS_WGS84_UTM_zone_22S"@),
        32723 => Some("PCS_WGS84_UTM_zone_23S"@),
        32724 => Some("PCS_WGS84_UTM_zone_24S"@),
        32725 => Some("PCS_WGS84_UTM_zone_25S"@),
        32726 => Some("PCS_WGS84_UTM_zone_26S"@),
        32727 => Some("PCS_WGS84_UTM_zone_27S"@),
        32728 => Some("PCS_WGS84_UTM_zone_28S"@),
        32729 => Some("PCS_WGS84_UTM_zone_29S"@),
        32730 => Some("PCS_WGS84_UTM_zone_30S"@),
        32731 => Some("PCS_WGS84_UTM_zone_31S"@),
        32732 => Some("PCS_WGS84_UTM_zone_32S"@),
        32733 => Some("PCS_WGS84_UTM_zone_33S"@),
        32734 => Some("PCS_WGS84_UTM_zone_34S"@),
        32735 => Some("PCS_WGS84_UTM_zone_35S"@),
        32736 => Some("PCS_WGS84_UTM_zone_36S"@),
        32737 => Some("PCS_WGS84_UTM_zone_37S"@),
        32738 => Some("PCS_WGS84_UTM_zone_38S"@),
        32739 => Some("PCS_WGS84_UTM_zone_39S"@),
        32740 => Some("PCS_WGS84_UTM_zone_40S"@),
        32741 => Some("PCS_WGS84_UTM_zone_41S"@),
        32742 => Some("PCS_WGS84_UTM_zone_42S"@),
        32743 => Some("PCS_WGS84_UTM_zone_43S"@),
        32744 => Some("PCS_WGS84_UTM_zone_44S"@),
        32745 => Some("PCS_WGS84_UTM_zone_45S"@),
        32746 => Some("PCS_WGS84_UTM_zone_46S"@),
        _ => None,
    }
}

/// The projected coordinate system names for the codes 32747 to 32760.
pub open spec fn projected_cs_type_names_32747_to_32760(code: u16) -> Option<Seq<char>> {
    match code {
        32747 => Some("PCS_WGS84_UTM_zone_47S"@),
        32748 => Some("PCS_WGS84_UTM_zone_48S"@),
        32749 => Some("PCS_WGS84_UTM_zone_49S"@),
        32750 => Some("PCS_WGS84_UTM_zone_50S"@),
        32751 => Some("PCS_WGS84_UTM_zone_51S"@),
        32752 => Some("PCS_WGS84_UTM_zone_52S"@),
        32753 => Some("PCS_WGS84_UTM_zone_53S"@),
        32754 => Some("PCS_WGS84_UTM_zone_54S"@),
        32755 => Some("PCS_WGS84_UTM_zone_55S"@),
        32756 => Some("PCS_WGS84_UTM_zone_56S"@),
        32757 => Some("PCS_WGS84_UTM_zone_57S"@),
        32758 => Some("PCS_WGS84_UTM_zone_58S"@),
        32759 => Some("PCS_WGS84_UTM_zone_59S"@),
        32760 => Some("PCS_WGS84_UTM_zone_60S"@),
        _ => None,
    }
}

fn add_projected_cs_type_names_20137_to_21148(m: &mut HashMap<u16, &'static str>)
    ensures
        extends_names(old(m)@, final(m)@, 0, 21148, |code: u16| projected_cs_type_names_20137_to_21148(code)),
{
    broadcast use vstd::std_specs::hash::group_hash_axioms;

    m.insert(20137, "PCS_Adindan_UTM_zone_37N");
    m.insert(20138, "PCS_Adindan_UTM_zone_38N");
    m.insert(20248, "PCS_AGD66_AMG_zone_48");
    m.insert(20249, "PCS_AGD66_AMG_zone_49");
    m.insert(20250, "PCS_AGD66_AMG_zone_50");
    m.insert(20251, "PCS_AGD66_AMG_zone_51");
    m.insert(20252, "PCS_AGD66_AMG_zone_52");
    m.insert(20253, "PCS_AGD66_AMG_zone_53");
    m.insert(20254, "PCS_AGD66_AMG_zone_54");
    m.insert(20255, "PCS_AGD66_AMG_zone_55");
    m.insert(20256, "PCS_AGD66_AMG_zone_56");
    m.insert(20257, "PCS_AGD66_AMG_zone_57");
    m.insert(20258, "PCS_AGD66_AMG_zone_58");
    m.insert(20348, "PCS_AGD84_AMG_zone_48");
    m.insert(20349, "PCS_AGD84_AMG_zone_49");
    m.insert(20350, "PCS_AGD84_AMG_zone_50");
    m.insert(20351, "PCS_AGD84_AMG_zone_51");
    m.insert(20352, "PCS_AGD84_AMG_zone_52");
    m.insert(20353, "PCS_AGD84_AMG_zone_53");
    m.insert(20354, "PCS_AGD84_AMG_zone_54");
    m.insert(20355, "PCS_AGD84_AMG_zone_55");
    m.insert(20356, "PCS_AGD84_AMG_zone_56");
    m.insert(20357, "PCS_AGD84_AMG_zone_57");
    m.insert(20358, "PCS_AGD84_AMG_zone_58");
    m.insert(20437, "PCS_Ain_el_Abd_UTM_zone_37N");
    m.insert(20438, "PCS_Ain_el_Abd_UTM_zone_38N");
    m.insert(20439, "PCS_Ain_el_Abd_UTM_zone_39N");
    m.insert(20499, "PCS_Ain_el_Abd_Bahrain_Grid");
    m.insert(20538, "PCS_Afgooye_UTM_zone_38N");
    m.insert(20539, "PCS_Afgooye_UTM_zone_39N");
    m.insert(20700, "PCS_Lisbon_Portugese_Grid");
    m.insert(20822, "PCS_Aratu_UTM_zone_22S");
    m.insert(20823, "PCS_Aratu_UTM_zone_23S");
    m.insert(20824, "PCS_Aratu_UTM_zone_24S");
    m.insert(20973, "PCS_Arc_1950_Lo13");
    m.insert(20975, "PCS_Arc_1950_Lo15");
    m.insert(20977, "PCS_Arc_1950_Lo17");
    m.insert(20979, "PCS_Arc_1950_Lo19");
    m.insert(20981, "PCS_Arc_1950_Lo21");
    m.insert(20983, "PCS_Arc_1950_Lo23");
    m.insert(20985, "PCS_Arc_1950_Lo25");
    m.insert(20987, "PCS_Arc_1950_Lo27");
    m.insert(20989, "PCS_Arc_1950_Lo29");
    m.insert(20991, "PCS_Arc_1950_Lo31");
    m.insert(20993, "PCS_Arc_1950_Lo33");
    m.insert(20995, "PCS_Arc_1950_Lo35");
    m.insert(21100, "PCS_Batavia_NEIEZ");
    m.insert(21148, "PCS_Batavia_UTM_zone_48S");
}

fn add_projected_cs_type_names_21149_to_22992(m: &mut HashMap<u16, &'static str>)
    ensures
        extends_names(old(m)@, final(m)@, 21149, 22992, |code: u16| projected_cs_type_names_21149_to_22992(code)),
{
    broadcast use vstd::std_specs::hash::group_hash_axioms;

    m.insert(21149, "PCS_Batavia_UTM_zone_49S");
    m.insert(21150, "PCS_Batavia_UTM_zone_50S");
    m.insert(21413, "PCS_Beijing_Gauss_zone_13");
    m.insert(21414, "PCS_Beijing_Gauss_zone_14");
    m.insert(21415, "PCS_Beijing_Gauss_zone_15");
    m.insert(21416, "PCS_Beijing_Gauss_zone_16");
    m.insert(21417, "PCS_Beijing_Gauss_zone_17");
    m.insert(21418, "PCS_Beijing_Gauss_zone_18");
    m.insert(21419, "PCS_Beijing_Gauss_zone_19");
    m.insert(21420, "PCS_Beijing_Gauss_zone_20");
    m.insert(21421, "PCS_Beijing_Gauss_zone_21");
    m.insert(21422, "PCS_Beijing_Gauss_zone_22");
    m.insert(21423, "PCS_Beijing_Gauss_zone_23");
    m.insert(21473, "PCS_Beijing_Gauss_13N");
    m.insert(21474, "PCS_Beijing_Gauss_14N");
    m.insert(21475, "PCS_Beijing_Gauss_15N");
    m.insert(21476, "PCS_Beijing_Gauss_16N");
    m.insert(21477, "PCS_Beijing_Gauss_17N");
    m.insert(21478, "PCS_Beijing_Gauss_18N");
    m.insert(21479, "PCS_Beijing_Gauss_19N");
    m.insert(21480, "PCS_Beijing_Gauss_20N");
    m.insert(21481, "PCS_Beijing_Gauss_21N");
    m.insert(21482, "PCS_Beijing_Gauss_22N");
    m.insert(21483, "PCS_Beijing_Gauss_23N");
    m.insert(21500, "PCS_Belge_Lambert_50");
    m.insert(21790, "PCS_Bern_1898_Swiss_Old");
    m.insert(21817, "PCS_Bogota_UTM_zone_17N");
    m.insert(21818, "PCS_Bogota_UTM_zone_18N");
    m.insert(21891, "PCS_Bogota_Colombia_3W");
    m.insert(21892, "PCS_Bogota_Colombia_Bogota");
    m.insert(21893, "PCS_Bogota_Colombia_3E");
    m.insert(21894, "PCS_Bogota_Colombia_6E");
    m.insert(22032, "PCS_Camacupa_UTM_32S");
    m.insert(22033, "PCS_Camacupa_UTM_33S");
    m.insert(22191, "PCS_C_Inchauspe_Argentina_1");
    m.insert(22192, "PCS_C_Inchauspe_Argentina_2");
    m.insert(22193, "PCS_C_Inchauspe_Argentina_3");
    m.insert(22194, "PCS_C_Inchauspe_Argentina_4");
    m.insert(22195, "PCS_C_Inchauspe_Argentina_5");
    m.insert(22196, "PCS_C_Inchauspe_Argentina_6");
    m.insert(22197, "PCS_C_Inchauspe_Argentina_7");
    m.insert(22332, "PCS_Carthage_UTM_zone_32N");
    m.insert(22391, "PCS_Carthage_Nord_Tunisie");
    m.insert(22392, "PCS_Carthage_Sud_Tunisie");
    m.insert(22523, "PCS_Corrego_Alegre_UTM_23S");
    m.insert(22524, "PCS_Corrego_Alegre_UTM_24S");
    m.insert(22832, "PCS_Douala_UTM_zone_32N");
    m.insert(22992, "PCS_Egypt_1907_Red_Belt");
}

fn add_projected_cs_type_names_22993_to_24500(m: &mut HashMap<u16, &'static str>)
    ensures
        extends_names(old(m)@, final(m)@, 22993, 24500, |code: u16| projected_cs_type_names_22993_to_24500(code)),
{
    broadcast use vstd::std_specs::hash::group_hash_axioms;

    m.insert(22993, "PCS_Egypt_1907_Purple_Belt");
    m.insert(22994, "PCS_Egypt_1907_Ext_Purple");
    m.insert(23028, "PCS_ED50_UTM_zone_28N");
    m.insert(23029, "PCS_ED50_UTM_zone_29N");
    m.insert(23030, "PCS_ED50_UTM_zone_30N");
    m.insert(23031, "PCS_ED50_UTM_zone_31N");
    m.insert(23032, "PCS_ED50_UTM_zone_32N");
    m.insert(23033, "PCS_ED50_UTM_zone_33N");
    m.insert(23034, "PCS_ED50_UTM_zone_34N");
    m.insert(23035, "PCS_ED50_UTM_zone_35N");
    m.insert(23036, "PCS_ED50_UTM_zone_36N");
    m.insert(23037, "PCS_ED50_UTM_zone_37N");
    m.insert(23038, "PCS_ED50_UTM_zone_38N");
    m.insert(23239, "PCS_Fahud_UTM_zone_39N");
    m.insert(23240, "PCS_Fahud_UTM_zone_40N");
    m.insert(23433, "PCS_Garoua_UTM_zone_33N");
    m.insert(23846, "PCS_ID74_UTM_zone_46N");
    m.insert(23847, "PCS_ID74_UTM_zone_47N");
    m.insert(23848, "PCS_ID74_UTM_zone_48N");
    m.insert(23849, "PCS_ID74_UTM_zone_49N");
    m.insert(23850, "PCS_ID74_UTM_zone_50N");
    m.insert(23851, "PCS_ID74_UTM_zone_51N");
    m.insert(23852, "PCS_ID74_UTM_zone_52N");
    m.insert(23853, "PCS_ID74_UTM_zone_53N");
    m.insert(23886, "PCS_ID74_UTM_zone_46S");
    m.insert(23887, "PCS_ID74_UTM_zone_47S");
    m.insert(23888, "PCS_ID74_UTM_zone_48S");
    m.insert(23889, "PCS_ID74_UTM_zone_49S");
    m.insert(23890, "PCS_ID74_UTM_zone_50S");
    m.insert(23891, "PCS_ID74_UTM_zone_51S");
    m.insert(23892, "PCS_ID74_UTM_zone_52S");
    m.insert(23893, "PCS_ID74_UTM_zone_53S");
    m.insert(23894, "PCS_ID74_UTM_zone_54S");
    m.insert(23947, "PCS_Indian_1954_UTM_47N");
    m.insert(23948, "PCS_Indian_1954_UTM_48N");
    m.insert(24047, "PCS_Indian_1975_UTM_47N");
    m.insert(24048, "PCS_Indian_1975_UTM_48N");
    m.insert(24100, "PCS_Jamaica_1875_Old_Grid");
    m.insert(24200, "PCS_JAD69_Jamaica_Grid");
    m.insert(24370, "PCS_Kalianpur_India_0");
    m.insert(24371, "PCS_Kalianpur_India_I");
    m.insert(24372, "PCS_Kalianpur_India_IIa");
    m.insert(24373, "PCS_Kalianpur_India_IIIa");
    m.insert(24374, "PCS_Kalianpur_India_IVa");
    m.insert(24382, "PCS_Kalianpur_India_IIb");
    m.insert(24383, "PCS_Kalianpur_India_IIIb");
    m.insert(24384, "PCS_Kalianpur_India_IVb");
    m.insert(24500, "PCS_Kertau_Singapore_Grid");
}

fn add_projected_cs_type_names_24547_to_26712(m: &mut HashMap<u16, &'static str>)
    ensures
        extends_names(old(m)@, final(m)@, 24501, 26712, |code: u16| projected_cs_type_names_24547_to_26712(code)),
{
    broadcast use vstd::std_specs::hash::group_hash_axioms;

    m.insert(24547, "PCS_Kertau_UTM_zone_47N");
    m.insert(24548, "PCS_Kertau_UTM_zone_48N");
    m.insert(24720, "PCS_La_Canoa_UTM_zone_20N");
    m.insert(24721, "PCS_La_Canoa_UTM_zone_21N");
    m.insert(24818, "PCS_PSAD56_UTM_zone_18N");
    m.insert(24819, "PCS_PSAD56_UTM_zone_19N");
    m.insert(24820, "PCS_PSAD56_UTM_zone_20N");
    m.insert(24821, "PCS_PSAD56_UTM_zone_21N");
    m.insert(24877, "PCS_PSAD56_UTM_zone_17S");
    m.insert(24878, "PCS_PSAD56_UTM_zone_18S");
    m.insert(24879, "PCS_PSAD56_UTM_zone_19S");
    m.insert(24880, "PCS_PSAD56_UTM_zone_20S");
    m.insert(24891, "PCS_PSAD56_Peru_west_zone");
    m.insert(24892, "PCS_PSAD56_Peru_central");
    m.insert(24893, "PCS_PSAD56_Peru_east_zone");
    m.insert(25000, "PCS_Leigon_Ghana_Grid");
    m.insert(25231, "PCS_Lome_UTM_zone_31N");
    m.insert(25391, "PCS_Luzon_Philippines_I");
    m.insert(25392, "PCS_Luzon_Philippines_II");
    m.insert(25393, "PCS_Luzon_Philippines_III");
    m.insert(25394, "PCS_Luzon_Philippines_IV");
    m.insert(25395, "PCS_Luzon_Philippines_V");
    m.insert(25700, "PCS_Makassar_NEIEZ");
    m.insert(25932, "PCS_Malongo_1987_UTM_32S");
    m.insert(26191, "PCS_Merchich_Nord_Maroc");
    m.insert(26192, "PCS_Merchich_Sud_Maroc");
    m.insert(26193, "PCS_Merchich_Sahara");
    m.insert(26237, "PCS_Massawa_UTM_zone_37N");
    m.insert(26331, "PCS_Minna_UTM_zone_31N");
    m.insert(26332, "PCS_Minna_UTM_zone_32N");
    m.insert(26391, "PCS_Minna_Nigeria_West");
    m.insert(26392, "PCS_Minna_Nigeria_Mid_Belt");
    m.insert(26393, "PCS_Minna_Nigeria_East");
    m.insert(26432, "PCS_Mhast_UTM_zone_32S");
    m.insert(26591, "PCS_Monte_Mario_Italy_1");
    m.insert(26592, "PCS_Monte_Mario_Italy_2");
    m.insert(26632, "PCS_M_poraloko_UTM_32N");
    m.insert(26692, "PCS_M_poraloko_UTM_32S");
    m.insert(26703, "PCS_NAD27_UTM_zone_3N");
    m.insert(26704, "PCS_NAD27_UTM_zone_4N");
    m.insert(26705, "PCS_NAD27_UTM_zone_5N");
    m.insert(26706, "PCS_NAD27_UTM_zone_6N");
    m.insert(26707, "PCS_NAD27_UTM_zone_7N");
    m.insert(26708, "PCS_NAD27_UTM_zone_8N");
    m.insert(26709, "PCS_NAD27_UTM_zone_9N");
    m.insert(26710, "PCS_NAD27_UTM_zone_10N");
    m.insert(26711, "PCS_NAD27_UTM_zone_11N");
    m.insert(26712, "PCS_NAD27_UTM_zone_12N");
}

fn add_projected_cs_type_names_26713_to_26766(m: &mut HashMap<u16, &'static str>)
    ensures
        extends_names(old(m)@, final(m)@, 26713, 26766, |code: u16| projected_cs_type_names_26713_to_26766(code)),
{
    broadcast use vstd::std_specs::hash::group_hash_axioms;

    m.insert(26713, "PCS_NAD27_UTM_zone_13N");
    m.insert(26714, "PCS_NAD27_UTM_zone_14N");
    m.insert(26715, "PCS_NAD27_UTM_zone_15N");
    m.insert(26716, "PCS_NAD27_UTM_zone_16N");
    m.insert(26717, "PCS_NAD27_UTM_zone_17N");
    m.insert(26718, "PCS_NAD27_UTM_zone_18N");
    m.insert(26719, "PCS_NAD27_UTM_zone_19N");
    m.insert(26720, "PCS_NAD27_UTM_zone_20N");
    m.insert(26721, "PCS_NAD27_UTM_zone_21N");
    m.insert(26722, "PCS_NAD27_UTM_zone_22N");
    m.insert(26729, "PCS_NAD27_Alabama_East");
    m.insert(26730, "PCS_NAD27_Alabama_West");
    m.insert(26731, "PCS_NAD27_Alaska_zone_1");
    m.insert(26732, "PCS_NAD27_Alaska_zone_2");
    m.insert(26733, "PCS_NAD27_Alaska_zone_3");
    m.insert(26734, "PCS_NAD27_Alaska_zone_4");
    m.insert(26735, "PCS_NAD27_Alaska_zone_5");
    m.insert(26736, "PCS_NAD27_Alaska_zone_6");
    m.insert(26737, "PCS_NAD27_Alaska_zone_7");
    m.insert(26738, "PCS_NAD27_Alaska_zone_8");
    m.insert(26739, "PCS_NAD27_Alaska_zone_9");
    m.insert(26740, "PCS_NAD27_Alaska_zone_10");
    m.insert(26741, "PCS_NAD27_California_I");
    m.insert(26742, "PCS_NAD27_California_II");
    m.insert(26743, "PCS_NAD27_California_III");
    m.insert(26744, "PCS_NAD27_California_IV");
    m.insert(26745, "PCS_NAD27_California_V");
    m.insert(26746, "PCS_NAD27_California_VI");
    m.insert(26747, "PCS_NAD27_California_VII");
    m.insert(26748, "PCS_NAD27_Arizona_East");
    m.insert(26749, "PCS_NAD27_Arizona_Central");
    m.insert(26750, "PCS_NAD27_Arizona_West");
    m.insert(26751, "PCS_NAD27_Arkansas_North");
    m.insert(26752, "PCS_NAD27_Arkansas_South");
    m.insert(26753, "PCS_NAD27_Colorado_North");
    m.insert(26754, "PCS_NAD27_Colorado_Central");
    m.insert(26755, "PCS_NAD27_Colorado_South");
    m.insert(26756, "PCS_NAD27_Connecticut");
    m.insert(26757, "PCS_NAD27_Delaware");
    m.insert(26758, "PCS_NAD27_Florida_East");
    m.insert(26759, "PCS_NAD27_Florida_West");
    m.insert(26760, "PCS_NAD27_Florida_North");
    m.insert(26761, "PCS_NAD27_Hawaii_zone_1");
    m.insert(26762, "PCS_NAD27_Hawaii_zone_2");
    m.insert(26763, "PCS_NAD27_Hawaii_zone_3");
    m.insert(26764, "PCS_NAD27_Hawaii_zone_4");
    m.insert(26765, "PCS_NAD27_Hawaii_zone_5");
    m.insert(26766, "PCS_NAD27_Georgia_East");
}

fn add_projected_cs_type_names_26767_to_26915(m: &mut HashMap<u16, &'static str>)
    ensures
        extends_names(old(m)@, final(m)@, 26767, 26915, |code: u16| projected_cs_type_names_26767_to_26915(code)),
{
    broadcast use vstd::std_specs::hash::group_hash_axioms;

    m.insert(26767, "PCS_NAD27_Georgia_West");
    m.insert(26768, "PCS_NAD27_Idaho_East");
    m.insert(26769, "PCS_NAD27_Idaho_Central");
    m.insert(26770, "PCS_NAD27_Idaho_West");
    m.insert(26771, "PCS_NAD27_Illinois_East");
    m.insert(26772, "PCS_NAD27_Illinois_West");
    m.insert(26773, "PCS_NAD27_Indiana_East");
    m.insert(26774, "PCS_NAD27_BLM_14N_feet");
    m.insert(26775, "PCS_NAD27_BLM_15N_feet");
    m.insert(26776, "PCS_NAD27_BLM_16N_feet");
    m.insert(26777, "PCS_NAD27_BLM_17N_feet");
    m.insert(26778, "PCS_NAD27_Kansas_South");
    m.insert(26779, "PCS_NAD27_Kentucky_North");
    m.insert(26780, "PCS_NAD27_Kentucky_South");
    m.insert(26781, "PCS_NAD27_Louisiana_North");
    m.insert(26782, "PCS_NAD27_Louisiana_South");
    m.insert(26783, "PCS_NAD27_Maine_East");
    m.insert(26784, "PCS_NAD27_Maine_West");
    m.insert(26785, "PCS_NAD27_Maryland");
    m.insert(26786, "PCS_NAD27_Massachusetts");
    m.insert(26787, "PCS_NAD27_Massachusetts_Is");
    m.insert(26788, "PCS_NAD27_Michigan_North");
    m.insert(26789, "PCS_NAD27_Michigan_Central");
    m.insert(26790, "PCS_NAD27_Michigan_South");
    m.insert(26791, "PCS_NAD27_Minnesota_North");
    m.insert(26792, "PCS_NAD27_Minnesota_Cent");
    m.insert(26793, "PCS_NAD27_Minnesota_South");
    m.insert(26794, "PCS_NAD27_Mississippi_East");
    m.insert(26795, "PCS_NAD27_Mississippi_West");
    m.insert(26796, "PCS_NAD27_Missouri_East");
    m.insert(26797, "PCS_NAD27_Missouri_Central");
    m.insert(26798, "PCS_NAD27_Missouri_West");
    m.insert(26801, "PCS_NAD_Michigan_Michigan_East");
    m.insert(26802, "PCS_NAD_Michigan_Michigan_Old_Central");
    m.insert(26803, "PCS_NAD_Michigan_Michigan_West");
    m.insert(26903, "PCS_NAD83_UTM_zone_3N");
    m.insert(26904, "PCS_NAD83_UTM_zone_4N");
    m.insert(26905, "PCS_NAD83_UTM_zone_5N");
    m.insert(26906, "PCS_NAD83_UTM_zone_6N");
    m.insert(26907, "PCS_NAD83_UTM_zone_7N");
    m.insert(26908, "PCS_NAD83_UTM_zone_8N");
    m.insert(26909, "PCS_NAD83_UTM_zone_9N");
    m.insert(26910, "PCS_NAD83_UTM_zone_10N");
    m.insert(26911, "PCS_NAD83_UTM_zone_11N");
    m.insert(26912, "PCS_NAD83_UTM_zone_12N");
    m.insert(26913, "PCS_NAD83_UTM_zone_13N");
    m.insert(26914, "PCS_NAD83_UTM_zone_14N");
    m.insert(26915, "PCS_NAD83_UTM_zone_15N");
}

fn add_projected_cs_type_names_26916_to_26969(m: &mut HashMap<u16, &'static str>)
    ensures
        extends_names(old(m)@, final(m)@, 26916, 26969, |code: u16| projected_cs_type_names_26916_to_26969(code)),
{
    broadcast use vstd::std_specs::hash::group_hash_axioms;

    m.insert(26916, "PCS_NAD83_UTM_zone_16N");
    m.insert(26917, "PCS_NAD83_UTM_zone_17N");
    m.insert(26918, "PCS_NAD83_UTM_zone_18N");
    m.insert(26919, "PCS_NAD83_UTM_zone_19N");
    m.insert(26920, "PCS_NAD83_UTM_zone_20N");
    m.insert(26921, "PCS_NAD83_UTM_zone_21N");
    m.insert(26922, "PCS_NAD83_UTM_zone_22N");
    m.insert(26923, "PCS_NAD83_UTM_zone_23N");
    m.insert(26929, "PCS_NAD83_Alabama_East");
    m.insert(26930, "PCS_NAD83_Alabama_West");
    m.insert(26931, "PCS_NAD83_Alaska_zone_1");
    m.insert(26932, "PCS_NAD83_Alaska_zone_2");
    m.insert(26933, "PCS_NAD83_Alaska_zone_3");
    m.insert(26934, "PCS_NAD83_Alaska_zone_4");
    m.insert(26935, "PCS_NAD83_Alaska_zone_5");
    m.insert(26936, "PCS_NAD83_Alaska_zone_6");
    m.insert(26937, "PCS_NAD83_Alaska_zone_7");
    m.insert(26938, "PCS_NAD83_Alaska_zone_8");
    m.insert(26939, "PCS_NAD83_Alaska_zone_9");
    m.insert(26940, "PCS_NAD83_Alaska_zone_10");
    m.insert(26941, "PCS_NAD83_California_1");
    m.insert(26942, "PCS_NAD83_California_2");
    m.insert(26943, "PCS_NAD83_California_3");
    m.insert(26944, "PCS_NAD83_California_4");
    m.insert(26945, "PCS_NAD83_California_5");
    m.insert(26946, "PCS_NAD83_California_6");
    m.insert(26948, "PCS_NAD83_Arizona_East");
    m.insert(26949, "PCS_NAD83_Arizona_Central");
    m.insert(26950, "PCS_NAD83_Arizona_West");
    m.insert(26951, "PCS_NAD83_Arkansas_North");
    m.insert(26952, "PCS_NAD83_Arkansas_South");
    m.insert(26953, "PCS_NAD83_Colorado_North");
    m.insert(26954, "PCS_NAD83_Colorado_Central");
    m.insert(26955, "PCS_NAD83_Colorado_South");
    m.insert(26956, "PCS_NAD83_Connecticut");
    m.insert(26957, "PCS_NAD83_Delaware");
    m.insert(26958, "PCS_NAD83_Florida_East");
    m.insert(26959, "PCS_NAD83_Florida_West");
    m.insert(26960, "PCS_NAD83_Florida_North");
    m.insert(26961, "PCS_NAD83_Hawaii_zone_1");
    m.insert(26962, "PCS_NAD83_Hawaii_zone_2");
    m.insert(26963, "PCS_NAD83_Hawaii_zone_3");
    m.insert(26964, "PCS_NAD83_Hawaii_zone_4");
    m.insert(26965, "PCS_NAD83_Hawaii_zone_5");
    m.insert(26966, "PCS_NAD83_Georgia_East");
    m.insert(26967, "PCS_NAD83_Georgia_West");
    m.insert(26968, "PCS_NAD83_Idaho_East");
    m.insert(26969, "PCS_NAD83_Idaho_Central");
}

fn add_projected_cs_type_names_26970_to_28349(m: &mut HashMap<u16, &'static str>)
    ensures
        extends_names(old(m)@, final(m)@, 26970, 28349, |code: u16| projected_cs_type_names_26970_to_28349(code)),
{
    broadcast use vstd::std_specs::hash::group_hash_axioms;

    m.insert(26970, "PCS_NAD83_Idaho_West");
    m.insert(26971, "PCS_NAD83_Illinois_East");
    m.insert(26972, "PCS_NAD83_Illinois_West");
    m.insert(26973, "PCS_NAD83_Indiana_East");
    m.insert(26974, "PCS_NAD83_Indiana_West");
    m.insert(26975, "PCS_NAD83_Iowa_North");
    m.insert(26976, "PCS_NAD83_Iowa_South");
    m.insert(26977, "PCS_NAD83_Kansas_North");
    m.insert(26978, "PCS_NAD83_Kansas_South");
    m.insert(26979, "PCS_NAD83_Kentucky_North");
    m.insert(26980, "PCS_NAD83_Kentucky_South");
    m.insert(26981, "PCS_NAD83_Louisiana_North");
    m.insert(26982, "PCS_NAD83_Louisiana_South");
    m.insert(26983, "PCS_NAD83_Maine_East");
    m.insert(26984, "PCS_NAD83_Maine_West");
    m.insert(26985, "PCS_NAD83_Maryland");
    m.insert(26986, "PCS_NAD83_Massachusetts");
    m.insert(26987, "PCS_NAD83_Massachusetts_Is");
    m.insert(26988, "PCS_NAD83_Michigan_North");
    m.insert(26989, "PCS_NAD83_Michigan_Central");
    m.insert(26990, "PCS_NAD83_Michigan_South");
    m.insert(26991, "PCS_NAD83_Minnesota_North");
    m.insert(26992, "PCS_NAD83_Minnesota_Cent");
    m.insert(26993, "PCS_NAD83_Minnesota_South");
    m.insert(26994, "PCS_NAD83_Mississippi_East");
    m.insert(26995, "PCS_NAD83_Mississippi_West");
    m.insert(26996, "PCS_NAD83_Missouri_East");
    m.insert(26997, "PCS_NAD83_Missouri_Central");
    m.insert(26998, "PCS_NAD83_Missouri_West");
    m.insert(27038, "PCS_Nahrwan_1967_UTM_38N");
    m.insert(27039, "PCS_Nahrwan_1967_UTM_39N");
    m.insert(27040, "PCS_Nahrwan_1967_UTM_40N");
    m.insert(27120, "PCS_Naparima_UTM_20N");
    m.insert(27200, "PCS_GD49_NZ_Map_Grid");
    m.insert(27291, "PCS_GD49_North_Island_Grid");
    m.insert(27292, "PCS_GD49_South_Island_Grid");
    m.insert(27429, "PCS_Datum_73_UTM_zone_29N");
    m.insert(27500, "PCS_ATF_Nord_de_Guerre");
    m.insert(27581, "PCS_NTF_France_I");
    m.insert(27582, "PCS_NTF_France_II");
    m.insert(27583, "PCS_NTF_France_III");
    m.insert(27591, "PCS_NTF_Nord_France");
    m.insert(27592, "PCS_NTF_Centre_France");
    m.insert(27593, "PCS_NTF_Sud_France");
    m.insert(27700, "PCS_British_National_Grid");
    m.insert(28232, "PCS_Point_Noire_UTM_32S");
    m.insert(28348, "PCS_GDA94_MGA_zone_48");
    m.insert(28349, "PCS_GDA94_MGA_zone_49");
}

fn add_projected_cs_type_names_28350_to_28473(m: &mut HashMap<u16, &'static str>)
    ensures
        extends_names(old(m)@, final(m)@, 28350, 28473, |code: u16| projected_cs_type_names_28350_to_28473(code)),
{
    broadcast use vstd::std_specs::hash::group_hash_axioms;

    m.insert(28350, "PCS_GDA94_MGA_zone_50");
    m.insert(28351, "PCS_GDA94_MGA_zone_51");
    m.insert(28352, "PCS_GDA94_MGA_zone_52");
    m.insert(28353, "PCS_GDA94_MGA_zone_53");
    m.insert(28354, "PCS_GDA94_MGA_zone_54");
    m.insert(28355, "PCS_GDA94_MGA_zone_55");
    m.insert(28356, "PCS_GDA94_MGA_zone_56");
    m.insert(28357, "PCS_GDA94_MGA_zone_57");
    m.insert(28358, "PCS_GDA94_MGA_zone_58");
    m.insert(28404, "PCS_Pulkovo_Gauss_zone_4");
    m.insert(28405, "PCS_Pulkovo_Gauss_zone_5");
    m.insert(28406, "PCS_Pulkovo_Gauss_zone_6");
    m.insert(28407, "PCS_Pulkovo_Gauss_zone_7");
    m.insert(28408, "PCS_Pulkovo_Gauss_zone_8");
    m.insert(28409, "PCS_Pulkovo_Gauss_zone_9");
    m.insert(28410, "PCS_Pulkovo_Gauss_zone_10");
    m.insert(28411, "PCS_Pulkovo_Gauss_zone_11");
    m.insert(28412, "PCS_Pulkovo_Gauss_zone_12");
    m.insert(28413, "PCS_Pulkovo_Gauss_zone_13");
    m.insert(28414, "PCS_Pulkovo_Gauss_zone_14");
    m.insert(28415, "PCS_Pulkovo_Gauss_zone_15");
    m.insert(28416, "PCS_Pulkovo_Gauss_zone_16");
    m.insert(28417, "PCS_Pulkovo_Gauss_zone_17");
    m.insert(28418, "PCS_Pulkovo_Gauss_zone_18");
    m.insert(28419, "PCS_Pulkovo_Gauss_zone_19");
    m.insert(28420, "PCS_Pulkovo_Gauss_zone_20");
    m.insert(28421, "PCS_Pulkovo_Gauss_zone_21");
    m.insert(28422, "PCS_Pulkovo_Gauss_zone_22");
    m.insert(28423, "PCS_Pulkovo_Gauss_zone_23");
    m.insert(28424, "PCS_Pulkovo_Gauss_zone_24");
    m.insert(28425, "PCS_Pulkovo_Gauss_zone_25");
    m.insert(28426, "PCS_Pulkovo_Gauss_zone_26");
    m.insert(28427, "PCS_Pulkovo_Gauss_zone_27");
    m.insert(28428, "PCS_Pulkovo_Gauss_zone_28");
    m.insert(28429, "PCS_Pulkovo_Gauss_zone_29");
    m.insert(28430, "PCS_Pulkovo_Gauss_zone_30");
    m.insert(28431, "PCS_Pulkovo_Gauss_zone_31");
    m.insert(28432, "PCS_Pulkovo_Gauss_zone_32");
    m.insert(28464, "PCS_Pulkovo_Gauss_4N");
    m.insert(28465, "PCS_Pulkovo_Gauss_5N");
    m.insert(28466, "PCS_Pulkovo_Gauss_6N");
    m.insert(28467, "PCS_Pulkovo_Gauss_7N");
    m.insert(28468, "PCS_Pulkovo_Gauss_8N");
    m.insert(28469, "PCS_Pulkovo_Gauss_9N");
    m.insert(28470, "PCS_Pulkovo_Gauss_10N");
    m.insert(28471, "PCS_Pulkovo_Gauss_11N");
    m.insert(28472, "PCS_Pulkovo_Gauss_12N");
    m.insert(28473, "PCS_Pulkovo_Gauss_13N");
}

fn add_projected_cs_type_names_28474_to_29900(m: &mut HashMap<u16, &'static str>)
    ensures
        extends_names(old(m)@, final(m)@, 28474, 29900, |code: u16| projected_cs_type_names_28474_to_29900(code)),
{
    broadcast use vstd::std_specs::hash::group_hash_axioms;

    m.insert(28474, "PCS_Pulkovo_Gauss_14N");
    m.insert(28475, "PCS_Pulkovo_Gauss_15N");
    m.insert(28476, "PCS_Pulkovo_Gauss_16N");
    m.insert(28477, "PCS_Pulkovo_Gauss_17N");
    m.insert(28478, "PCS_Pulkovo_Gauss_18N");
    m.insert(28479, "PCS_Pulkovo_Gauss_19N");
    m.insert(28480, "PCS_Pulkovo_Gauss_20N");
    m.insert(28481, "PCS_Pulkovo_Gauss_21N");
    m.insert(28482, "PCS_Pulkovo_Gauss_22N");
    m.insert(28483, "PCS_Pulkovo_Gauss_23N");
    m.insert(28484, "PCS_Pulkovo_Gauss_24N");
    m.insert(28485, "PCS_Pulkovo_Gauss_25N");
    m.insert(28486, "PCS_Pulkovo_Gauss_26N");
    m.insert(28487, "PCS_Pulkovo_Gauss_27N");
    m.insert(28488, "PCS_Pulkovo_Gauss_28N");
    m.insert(28489, "PCS_Pulkovo_Gauss_29N");
    m.insert(28490, "PCS_Pulkovo_Gauss_30N");
    m.insert(28491, "PCS_Pulkovo_Gauss_31N");
    m.insert(28492, "PCS_Pulkovo_Gauss_32N");
    m.insert(28600, "PCS_Qatar_National_Grid");
    m.insert(28991, "PCS_RD_Netherlands_Old");
    m.insert(28992, "PCS_RD_Netherlands_New");
    m.insert(29118, "PCS_SAD69_UTM_zone_18N");
    m.insert(29119, "PCS_SAD69_UTM_zone_19N");
    m.insert(29120, "PCS_SAD69_UTM_zone_20N");
    m.insert(29121, "PCS_SAD69_UTM_zone_21N");
    m.insert(29122, "PCS_SAD69_UTM_zone_22N");
    m.insert(29177, "PCS_SAD69_UTM_zone_17S");
    m.insert(29178, "PCS_SAD69_UTM_zone_18S");
    m.insert(29179, "PCS_SAD69_UTM_zone_19S");
    m.insert(29180, "PCS_SAD69_UTM_zone_20S");
    m.insert(29181, "PCS_SAD69_UTM_zone_21S");
    m.insert(29182, "PCS_SAD69_UTM_zone_22S");
    m.insert(29183, "PCS_SAD69_UTM_zone_23S");
    m.insert(29184, "PCS_SAD69_UTM_zone_24S");
    m.insert(29185, "PCS_SAD69_UTM_zone_25S");
    m.insert(29220, "PCS_Sapper_Hill_UTM_20S");
    m.insert(29221, "PCS_Sapper_Hill_UTM_21S");
    m.insert(29333, "PCS_Schwarzeck_UTM_33S");
    m.insert(29635, "PCS_Sudan_UTM_zone_35N");
    m.insert(29636, "PCS_Sudan_UTM_zone_36N");
    m.insert(29700, "PCS_Tananarive_Laborde");
    m.insert(29738, "PCS_Tananarive_UTM_38S");
    m.insert(29739, "PCS_Tananarive_UTM_39S");
    m.insert(29800, "PCS_Timbalai_1948_Borneo");
    m.insert(29849, "PCS_Timbalai_1948_UTM_49N");
    m.insert(29850, "PCS_Timbalai_1948_UTM_50N");
    m.insert(29900, "PCS_TM65_Irish_Nat_Grid");
}

fn add_projected_cs_type_names_30200_to_32026(m: &mut HashMap<u16, &'static str>)
    ensures
        extends_names(old(m)@, final(m)@, 29901, 32026, |code: u16| projected_cs_type_names_30200_to_32026(code)),
{
    broadcast use vstd::std_specs::hash::group_hash_axioms;

    m.insert(30200, "PCS_Trinidad_1903_Trinidad");
    m.insert(30339, "PCS_TC_1948_UTM_zone_39N");
    m.insert(30340, "PCS_TC_1948_UTM_zone_40N");
    m.insert(30491, "PCS_Voirol_N_Algerie_ancien");
    m.insert(30492, "PCS_Voirol_S_Algerie_ancien");
    m.insert(30591, "PCS_Voirol_Unifie_N_Algerie");
    m.insert(30592, "PCS_Voirol_Unifie_S_Algerie");
    m.insert(30600, "PCS_Bern_1938_Swiss_New");
    m.insert(30729, "PCS_Nord_Sahara_UTM_29N");
    m.insert(30730, "PCS_Nord_Sahara_UTM_30N");
    m.insert(30731, "PCS_Nord_Sahara_UTM_31N");
    m.insert(30732, "PCS_Nord_Sahara_UTM_32N");
    m.insert(31028, "PCS_Yoff_UTM_zone_28N");
    m.insert(31121, "PCS_Zanderij_UTM_zone_21N");
    m.insert(31291, "PCS_MGI_Austria_West");
    m.insert(31292, "PCS_MGI_Austria_Central");
    m.insert(31293, "PCS_MGI_Austria_East");
    m.insert(31300, "PCS_Belge_Lambert_72");
    m.insert(31491, "PCS_DHDN_Germany_zone_1");
    m.insert(31492, "PCS_DHDN_Germany_zone_2");
    m.insert(31493, "PCS_DHDN_Germany_zone_3");
    m.insert(31494, "PCS_DHDN_Germany_zone_4");
    m.insert(31495, "PCS_DHDN_Germany_zone_5");
    m.insert(32001, "PCS_NAD27_Montana_North");
    m.insert(32002, "PCS_NAD27_Montana_Central");
    m.insert(32003, "PCS_NAD27_Montana_South");
    m.insert(32005, "PCS_NAD27_Nebraska_North");
    m.insert(32006, "PCS_NAD27_Nebraska_South");
    m.insert(32007, "PCS_NAD27_Nevada_East");
    m.insert(32008, "PCS_NAD27_Nevada_Central");
    m.insert(32009, "PCS_NAD27_Nevada_West");
    m.insert(32010, "PCS_NAD27_New_Hampshire");
    m.insert(32011, "PCS_NAD27_New_Jersey");
    m.insert(32012, "PCS_NAD27_New_Mexico_East");
    m.insert(32013, "PCS_NAD27_New_Mexico_Cent");
    m.insert(32014, "PCS_NAD27_New_Mexico_West");
    m.insert(32015, "PCS_NAD27_New_York_East");
    m.insert(32016, "PCS_NAD27_New_York_Central");
    m.insert(32017, "PCS_NAD27_New_York_West");
    m.insert(32018, "PCS_NAD27_New_York_Long_Is");
    m.insert(32019, "PCS_NAD27_North_Carolina");
    m.insert(32020, "PCS_NAD27_North_Dakota_N");
    m.insert(32021, "PCS_NAD27_North_Dakota_S");
    m.insert(32022, "PCS_NAD27_Ohio_North");
    m.insert(32023, "PCS_NAD27_Ohio_South");
    m.insert(32024, "PCS_NAD27_Oklahoma_North");
    m.insert(32025, "PCS_NAD27_Oklahoma_South");
    m.insert(32026, "PCS_NAD27_Oregon_North");
}

fn add_projected_cs_type_names_32027_to_32119(m: &mut HashMap<u16, &'static str>)
    ensures
        extends_names(old(m)@, final(m)@, 32027, 32119, |code: u16| projected_cs_type_names_32027_to_32119(code)),
{
    broadcast use vstd::std_specs::hash::group_hash_axioms;

    m.insert(32027, "PCS_NAD27_Oregon_South");
    m.insert(32028, "PCS_NAD27_Pennsylvania_N");
    m.insert(32029, "PCS_NAD27_Pennsylvania_S");
    m.insert(32030, "PCS_NAD27_Rhode_Island");
    m.insert(32031, "PCS_NAD27_South_Carolina_N");
    m.insert(32033, "PCS_NAD27_South_Carolina_S");
    m.insert(32034, "PCS_NAD27_South_Dakota_N");
    m.insert(32035, "PCS_NAD27_South_Dakota_S");
    m.insert(32036, "PCS_NAD27_Tennessee");
    m.insert(32037, "PCS_NAD27_Texas_North");
    m.insert(32038, "PCS_NAD27_Texas_North_Cen");
    m.insert(32039, "PCS_NAD27_Texas_Central");
    m.insert(32040, "PCS_NAD27_Texas_South_Cen");
    m.insert(32041, "PCS_NAD27_Texas_South");
    m.insert(32042, "PCS_NAD27_Utah_North");
    m.insert(32043, "PCS_NAD27_Utah_Central");
    m.insert(32044, "PCS_NAD27_Utah_South");
    m.insert(32045, "PCS_NAD27_Vermont");
    m.insert(32046, "PCS_NAD27_Virginia_North");
    m.insert(32047, "PCS_NAD27_Virginia_South");
    m.insert(32048, "PCS_NAD27_Washington_North");
    m.insert(32049, "PCS_NAD27_Washington_South");
    m.insert(32050, "PCS_NAD27_West_Virginia_N");
    m.insert(32051, "PCS_NAD27_West_Virginia_S");
    m.insert(32052, "PCS_NAD27_Wisconsin_North");
    m.insert(32053, "PCS_NAD27_Wisconsin_Cen");
    m.insert(32054, "PCS_NAD27_Wisconsin_South");
    m.insert(32055, "PCS_NAD27_Wyoming_East");
    m.insert(32056, "PCS_NAD27_Wyoming_E_Cen");
    m.insert(32057, "PCS_NAD27_Wyoming_W_Cen");
    m.insert(32058, "PCS_NAD27_Wyoming_West");
    m.insert(32059, "PCS_NAD27_Puerto_Rico");
    m.insert(32060, "PCS_NAD27_St_Croix");
    m.insert(32100, "PCS_NAD83_Montana");
    m.insert(32104, "PCS_NAD83_Nebraska");
    m.insert(32107, "PCS_NAD83_Nevada_East");
    m.insert(32108, "PCS_NAD83_Nevada_Central");
    m.insert(32109, "PCS_NAD83_Nevada_West");
    m.insert(32110, "PCS_NAD83_New_Hampshire");
    m.insert(32111, "PCS_NAD83_New_Jersey");
    m.insert(32112, "PCS_NAD83_New_Mexico_East");
    m.insert(32113, "PCS_NAD83_New_Mexico_Cent");
    m.insert(32114, "PCS_NAD83_New_Mexico_West");
    m.insert(32115, "PCS_NAD83_New_York_East");
    m.insert(32116, "PCS_NAD83_New_York_Central");
    m.insert(32117, "PCS_NAD83_New_York_West");
    m.insert(32118, "PCS_NAD83_New_York_Long_Is");
    m.insert(32119, "PCS_NAD83_North_Carolina");
}

fn add_projected_cs_type_names_32120_to_32210(m: &mut HashMap<u16, &'static str>)
    ensures
        extends_names(old(m)@, final(m)@, 32120, 32210, |code: u16| projected_cs_type_names_32120_to_32210(code)),
{
    broadcast use vstd::std_specs::hash::group_hash_axioms;

    m.insert(32120, "PCS_NAD83_North_Dakota_N");
    m.insert(32121, "PCS_NAD83_North_Dakota_S");
    m.insert(32122, "PCS_NAD83_Ohio_North");
    m.insert(32123, "PCS_NAD83_Ohio_South");
    m.insert(32124, "PCS_NAD83_Oklahoma_North");
    m.insert(32125, "PCS_NAD83_Oklahoma_South");
    m.insert(32126, "PCS_NAD83_Oregon_North");
    m.insert(32127, "PCS_NAD83_Oregon_South");
    m.insert(32128, "PCS_NAD83_Pennsylvania_N");
    m.insert(32129, "PCS_NAD83_Pennsylvania_S");
    m.insert(32130, "PCS_NAD83_Rhode_Island");
    m.insert(32133, "PCS_NAD83_South_Carolina");
    m.insert(32134, "PCS_NAD83_South_Dakota_N");
    m.insert(32135, "PCS_NAD83_South_Dakota_S");
    m.insert(32136, "PCS_NAD83_Tennessee");
    m.insert(32137, "PCS_NAD83_Texas_North");
    m.insert(32138, "PCS_NAD83_Texas_North_Cen");
    m.insert(32139, "PCS_NAD83_Texas_Central");
    m.insert(32140, "PCS_NAD83_Texas_South_Cen");
    m.insert(32141, "PCS_NAD83_Texas_South");
    m.insert(32142, "PCS_NAD83_Utah_North");
    m.insert(32143, "PCS_NAD83_Utah_Central");
    m.insert(32144, "PCS_NAD83_Utah_South");
    m.insert(32145, "PCS_NAD83_Vermont");
    m.insert(32146, "PCS_NAD83_Virginia_North");
    m.insert(32147, "PCS_NAD83_Virginia_South");
    m.insert(32148, "PCS_NAD83_Washington_North");
    m.insert(32149, "PCS_NAD83_Washington_South");
    m.insert(32150, "PCS_NAD83_West_Virginia_N");
    m.insert(32151, "PCS_NAD83_West_Virginia_S");
    m.insert(32152, "PCS_NAD83_Wisconsin_North");
    m.insert(32153, "PCS_NAD83_Wisconsin_Cen");
    m.insert(32154, "PCS_NAD83_Wisconsin_South");
    m.insert(32155, "PCS_NAD83_Wyoming_East");
    m.insert(32156, "PCS_NAD83_Wyoming_E_Cen");
    m.insert(32157, "PCS_NAD83_Wyoming_W_Cen");
    m.insert(32158, "PCS_NAD83_Wyoming_West");
    m.insert(32161, "PCS_NAD83_Puerto_Rico_Virgin_Is");
    m.insert(32201, "PCS_WGS72_UTM_zone_1N");
    m.insert(32202, "PCS_WGS72_UTM_zone_2N");
    m.insert(32203, "PCS_WGS72_UTM_zone_3N");
    m.insert(32204, "PCS_WGS72_UTM_zone_4N");
    m.insert(32205, "PCS_WGS72_UTM_zone_5N");
    m.insert(32206, "PCS_WGS72_UTM_zone_6N");
    m.insert(32207, "PCS_WGS72_UTM_zone_7N");
    m.insert(32208, "PCS_WGS72_UTM_zone_8N");
    m.insert(32209, "PCS_WGS72_UTM_zone_9N");
    m.insert(32210, "PCS_WGS72_UTM_zone_10N");
}

fn add_projected_cs_type_names_32211_to_32258(m: &mut HashMap<u16, &'static str>)
    ensures
        extends_names(old(m)@, final(m)@, 32211, 32258, |code: u16| projected_cs_type_names_32211_to_32258(code)),
{
    broadcast use vstd::std_specs::hash::group_hash_axioms;

    m.insert(32211, "PCS_WGS72_UTM_zone_11N");
    m.insert(32212, "PCS_WGS72_UTM_zone_12N");
    m.insert(32213, "PCS_WGS72_UTM_zone_13N");
    m.insert(32214, "PCS_WGS72_UTM_zone_14N");
    m.insert(32215, "PCS_WGS72_UTM_zone_15N");
    m.insert(32216, "PCS_WGS72_UTM_zone_16N");
    m.insert(32217, "PCS_WGS72_UTM_zone_17N");
    m.insert(32218, "PCS_WGS72_UTM_zone_18N");
    m.insert(32219, "PCS_WGS72_UTM_zone_19N");
    m.insert(32220, "PCS_WGS72_UTM_zone_20N");
    m.insert(32221, "PCS_WGS72_UTM_zone_21N");
    m.insert(32222, "PCS_WGS72_UTM_zone_22N");
    m.insert(32223, "PCS_WGS72_UTM_zone_23N");
    m.insert(32224, "PCS_WGS72_UTM_zone_24N");
    m.insert(32225, "PCS_WGS72_UTM_zone_25N");
    m.insert(32226, "PCS_WGS72_UTM_zone_26N");
    m.insert(32227, "PCS_WGS72_UTM_zone_27N");
    m.insert(32228, "PCS_WGS72_UTM_zone_28N");
    m.insert(32229, "PCS_WGS72_UTM_zone_29N");
    m.insert(32230, "PCS_WGS72_UTM_zone_30N");
    m.insert(32231, "PCS_WGS72_UTM_zone_31N");
    m.insert(32232, "PCS_WGS72_UTM_zone_32N");
    m.insert(32233, "PCS_WGS72_UTM_zone_33N");
    m.insert(32234, "PCS_WGS72_UTM_zone_34N");
    m.insert(32235, "PCS_WGS72_UTM_zone_35N");
    m.insert(32236, "PCS_WGS72_UTM_zone_36N");
    m.insert(32237, "PCS_WGS72_UTM_zone_37N");
    m.insert(32238, "PCS_WGS72_UTM_zone_38N");
    m.insert(32239, "PCS_WGS72_UTM_zone_39N");
    m.insert(32240, "PCS_WGS72_UTM_zone_40N");
    m.insert(32241, "PCS_WGS72_UTM_zone_41N");
    m.insert(32242, "PCS_WGS72_UTM_zone_42N");
    m.insert(32243, "PCS_WGS72_UTM_zone_43N");
    m.insert(32244, "PCS_WGS72_UTM_zone_44N");
    m.insert(32245, "PCS_WGS72_UTM_zone_45N");
    m.insert(32246, "PCS_WGS72_UTM_zone_46N");
    m.insert(32247, "PCS_WGS72_UTM_zone_47N");
    m.insert(32248, "PCS_WGS72_UTM_zone_48N");
    m.insert(32249, "PCS_WGS72_UTM_zone_49N");
    m.insert(32250, "PCS_WGS72_UTM_zone_50N");
    m.insert(32251, "PCS_WGS72_UTM_zone_51N");
    m.insert(32252, "PCS_WGS72_UTM_zone_52N");
    m.insert(32253, "PCS_WGS72_UTM_zone_53N");
    m.insert(32254, "PCS_WGS72_UTM_zone_54N");
    m.insert(32255, "PCS_WGS72_UTM_zone_55N");
    m.insert(32256, "PCS_WGS72_UTM_zone_56N");
    m.insert(32257, "PCS_WGS72_UTM_zone_57N");
    m.insert(32258, "PCS_WGS72_UTM_zone_58N");
}

fn add_projected_cs_type_names_32259_to_32346(m: &mut HashMap<u16, &'static str>)
    ensures
        extends_names(old(m)@, final(m)@, 32259, 32346, |code: u16| projected_cs_type_names_32259_to_32346(code)),
{
    broadcast use vstd::std_specs::hash::group_hash_axioms;

    m.insert(32259, "PCS_WGS72_UTM_zone_59N");
    m.insert(32260, "PCS_WGS72_UTM_zone_60N");
    m.insert(32301, "PCS_WGS72_UTM_zone_1S");
    m.insert(32302, "PCS_WGS72_UTM_zone_2S");
    m.insert(32303, "PCS_WGS72_UTM_zone_3S");
    m.insert(32304, "PCS_WGS72_UTM_zone_4S");
    m.insert(32305, "PCS_WGS72_UTM_zone_5S");
    m.insert(32306, "PCS_WGS72_UTM_zone_6S");
    m.insert(32307, "PCS_WGS72_UTM_zone_7S");
    m.insert(32308, "PCS_WGS72_UTM_zone_8S");
    m.insert(32309, "PCS_WGS72_UTM_zone_9S");
    m.insert(32310, "PCS_WGS72_UTM_zone_10S");
    m.insert(32311, "PCS_WGS72_UTM_zone_11S");
    m.insert(32312, "PCS_WGS72_UTM_zone_12S");
    m.insert(32313, "PCS_WGS72_UTM_zone_13S");
    m.insert(32314, "PCS_WGS72_UTM_zone_14S");
    m.insert(32315, "PCS_WGS72_UTM_zone_15S");
    m.insert(32316, "PCS_WGS72_UTM_zone_16S");
    m.insert(32317, "PCS_WGS72_UTM_zone_17S");
    m.insert(32318, "PCS_WGS72_UTM_zone_18S");
    m.insert(32319, "PCS_WGS72_UTM_zone_19S");
    m.insert(32320, "PCS_WGS72_UTM_zone_20S");
    m.insert(32321, "PCS_WGS72_UTM_zone_21S");
    m.insert(32322, "PCS_WGS72_UTM_zone_22S");
    m.insert(32323, "PCS_WGS72_UTM_zone_23S");
    m.insert(32324, "PCS_WGS72_UTM_zone_24S");
    m.insert(32325, "PCS_WGS72_UTM_zone_25S");
    m.insert(32326, "PCS_WGS72_UTM_zone_26S");
    m.insert(32327, "PCS_WGS72_UTM_zone_27S");
    m.insert(32328, "PCS_WGS72_UTM_zone_28S");
    m.insert(32329, "PCS_WGS72_UTM_zone_29S");
    m.insert(32330, "PCS_WGS72_UTM_zone_30S");
    m.insert(32331, "PCS_WGS72_UTM_zone_31S");
    m.insert(32332, "PCS_WGS72_UTM_zone_32S");
    m.insert(32333, "PCS_WGS72_UTM_zone_33S");
    m.insert(32334, "PCS_WGS72_UTM_zone_34S");
    m.insert(32335, "PCS_WGS72_UTM_zone_35S");
    m.insert(32336, "PCS_WGS72_UTM_zone_36S");
    m.insert(32337, "PCS_WGS72_UTM_zone_37S");
    m.insert(32338, "PCS_WGS72_UTM_zone_38S");
    m.insert(32339, "PCS_WGS72_UTM_zone_39S");
    m.insert(32340, "PCS_WGS72_UTM_zone_40S");
    m.insert(32341, "PCS_WGS72_UTM_zone_41S");
    m.insert(32342, "PCS_WGS72_UTM_zone_42S");
    m.insert(32343, "PCS_WGS72_UTM_zone_43S");
    m.insert(32344, "PCS_WGS72_UTM_zone_44S");
    m.insert(32345, "PCS_WGS72_UTM_zone_45S");
    m.insert(32346, "PCS_WGS72_UTM_zone_46S");
}

fn add_projected_cs_type_names_32347_to_32434(m: &mut HashMap<u16, &'static str>)
    ensures
        extends_names(old(m)@, final(m)@, 32347, 32434, |code: u16| projected_cs_type_names_32347_to_32434(code)),
{
    broadcast use vstd::std_specs::hash::group_hash_axioms;

    m.insert(32347, "PCS_WGS72_UTM_zone_47S");
    m.insert(32348, "PCS_WGS72_UTM_zone_48S");
    m.insert(32349, "PCS_WGS72_UTM_zone_49S");
    m.insert(32350, "PCS_WGS72_UTM_zone_50S");
    m.insert(32351, "PCS_WGS72_UTM_zone_51S");
    m.insert(32352, "PCS_WGS72_UTM_zone_52S");
    m.insert(32353, "PCS_WGS72_UTM_zone_53S");
    m.insert(32354, "PCS_WGS72_UTM_zone_54S");
    m.insert(32355, "PCS_WGS72_UTM_zone_55S");
    m.insert(32356, "PCS_WGS72_UTM_zone_56S");
    m.insert(32357, "PCS_WGS72_UTM_zone_57S");
    m.insert(32358, "PCS_WGS72_UTM_zone_58S");
    m.insert(32359, "PCS_WGS72_UTM_zone_59S");
    m.insert(32360, "PCS_WGS72_UTM_zone_60S");
    m.insert(32401, "PCS_WGS72BE_UTM_zone_1N");
    m.insert(32402, "PCS_WGS72BE_UTM_zone_2N");
    m.insert(32403, "PCS_WGS72BE_UTM_zone_3N");
    m.insert(32404, "PCS_WGS72BE_UTM_zone_4N");
    m.insert(32405, "PCS_WGS72BE_UTM_zone_5N");
    m.insert(32406, "PCS_WGS72BE_UTM_zone_6N");
    m.insert(32407, "PCS_WGS72BE_UTM_zone_7N");
    m.insert(32408, "PCS_WGS72BE_UTM_zone_8N");
    m.insert(32409, "PCS_WGS72BE_UTM_zone_9N");
    m.insert(32410, "PCS_WGS72BE_UTM_zone_10N");
    m.insert(32411, "PCS_WGS72BE_UTM_zone_11N");
    m.insert(32412, "PCS_WGS72BE_UTM_zone_12N");
    m.insert(32413, "PCS_WGS72BE_UTM_zone_13N");
    m.insert(32414, "PCS_WGS72BE_UTM_zone_14N");
    m.insert(32415, "PCS_WGS72BE_UTM_zone_15N");
    m.insert(32416, "PCS_WGS72BE_UTM_zone_16N");
    m.insert(32417, "PCS_WGS72BE_UTM_zone_17N");
    m.insert(32418, "PCS_WGS72BE_UTM_zone_18N");
    m.insert(32419, "PCS_WGS72BE_UTM_zone_19N");
    m.insert(32420, "PCS_WGS72BE_UTM_zone_20N");
    m.insert(32421, "PCS_WGS72BE_UTM_zone_21N");
    m.insert(32422, "PCS_WGS72BE_UTM_zone_22N");
    m.insert(32423, "PCS_WGS72BE_UTM_zone_23N");
    m.insert(32424, "PCS_WGS72BE_UTM_zone_24N");
    m.insert(32425, "PCS_WGS72BE_UTM_zone_25N");
    m.insert(32426, "PCS_WGS72BE_UTM_zone_26N");
    m.insert(32427, "PCS_WGS72BE_UTM_zone_27N");
    m.insert(32428, "PCS_WGS72BE_UTM_zone_28N");
    m.insert(32429, "PCS_WGS72BE_UTM_zone_29N");
    m.insert(32430, "PCS_WGS72BE_UTM_zone_30N");
    m.insert(32431, "PCS_WGS72BE_UTM_zone_31N");
    m.insert(32432, "PCS_WGS72BE_UTM_zone_32N");
    m.insert(32433, "PCS_WGS72BE_UTM_zone_33N");
    m.insert(32434, "PCS_WGS72BE_UTM_zone_34N");
}

fn add_projected_cs_type_names_32435_to_32522(m: &mut HashMap<u16, &'static str>)
    ensures
        extends_names(old(m)@, final(m)@, 32435, 32522, |code: u16| projected_cs_type_names_32435_to_32522(code)),
{
    broadcast use vstd::std_specs::hash::group_hash_axioms;

    m.insert(32435, "PCS_WGS72BE_UTM_zone_35N");
    m.insert(32436, "PCS_WGS72BE_UTM_zone_36N");
    m.insert(32437, "PCS_WGS72BE_UTM_zone_37N");
    m.insert(32438, "PCS_WGS72BE_UTM_zone_38N");
    m.insert(32439, "PCS_WGS72BE_UTM_zone_39N");
    m.insert(32440, "PCS_WGS72BE_UTM_zone_40N");
    m.insert(32441, "PCS_WGS72BE_UTM_zone_41N");
    m.insert(32442, "PCS_WGS72BE_UTM_zone_42N");
    m.insert(32443, "PCS_WGS72BE_UTM_zone_43N");
    m.insert(32444, "PCS_WGS72BE_UTM_zone_44N");
    m.insert(32445, "PCS_WGS72BE_UTM_zone_45N");
    m.insert(32446, "PCS_WGS72BE_UTM_zone_46N");
    m.insert(32447, "PCS_WGS72BE_UTM_zone_47N");
    m.insert(32448, "PCS_WGS72BE_UTM_zone_48N");
    m.insert(32449, "PCS_WGS72BE_UTM_zone_49N");
    m.insert(32450, "PCS_WGS72BE_UTM_zone_50N");
    m.insert(32451, "PCS_WGS72BE_UTM_zone_51N");
    m.insert(32452, "PCS_WGS72BE_UTM_zone_52N");
    m.insert(32453, "PCS_WGS72BE_UTM_zone_53N");
    m.insert(32454, "PCS_WGS72BE_UTM_zone_54N");
    m.insert(32455, "PCS_WGS72BE_UTM_zone_55N");
    m.insert(32456, "PCS_WGS72BE_UTM_zone_56N");
    m.insert(32457, "PCS_WGS72BE_UTM_zone_57N");
    m.insert(32458, "PCS_WGS72BE_UTM_zone_58N");
    m.insert(32459, "PCS_WGS72BE_UTM_zone_59N");
    m.insert(32460, "PCS_WGS72BE_UTM_zone_60N");
    m.insert(32501, "PCS_WGS72BE_UTM_zone_1S");
    m.insert(32502, "PCS_WGS72BE_UTM_zone_2S");
    m.insert(32503, "PCS_WGS72BE_UTM_zone_3S");
    m.insert(32504, "PCS_WGS72BE_UTM_zone_4S");
    m.insert(32505, "PCS_WGS72BE_UTM_zone_5S");
    m.insert(32506, "PCS_WGS72BE_UTM_zone_6S");
    m.insert(32507, "PCS_WGS72BE_UTM_zone_7S");
    m.insert(32508, "PCS_WGS72BE_UTM_zone_8S");
    m.insert(32509, "PCS_WGS72BE_UTM_zone_9S");
    m.insert(32510, "PCS_WGS72BE_UTM_zone_10S");
    m.insert(32511, "PCS_WGS72BE_UTM_zone_11S");
    m.insert(32512, "PCS_WGS72BE_UTM_zone_12S");
    m.insert(32513, "PCS_WGS72BE_UTM_zone_13S");
    m.insert(32514, "PCS_WGS72BE_UTM_zone_14S");
    m.insert(32515, "PCS_WGS72BE_UTM_zone_15S");
    m.insert(32516, "PCS_WGS72BE_UTM_zone_16S");
    m.insert(32517, "PCS_WGS72BE_UTM_zone_17S");
    m.insert(32518, "PCS_WGS72BE_UTM_zone_18S");
    m.insert(32519, "PCS_WGS72BE_UTM_zone_19S");
    m.insert(32520, "PCS_WGS72BE_UTM_zone_20S");
    m.insert(32521, "PCS_WGS72BE_UTM_zone_21S");
    m.insert(32522, "PCS_WGS72BE_UTM_zone_22S");
}

fn add_projected_cs_type_names_32523_to_32610(m: &mut HashMap<u16, &'static str>)
    ensures
        extends_names(old(m)@, final(m)@, 32523, 32610, |code: u16| projected_cs_type_names_32523_to_32610(code)),
{
    broadcast use vstd::std_specs::hash::group_hash_axioms;

    m.insert(32523, "PCS_WGS72BE_UTM_zone_23S");
    m.insert(32524, "PCS_WGS72BE_UTM_zone_24S");
    m.insert(32525, "PCS_WGS72BE_UTM_zone_25S");
    m.insert(32526, "PCS_WGS72BE_UTM_zone_26S");
    m.insert(32527, "PCS_WGS72BE_UTM_zone_27S");
    m.insert(32528, "PCS_WGS72BE_UTM_zone_28S");
    m.insert(32529, "PCS_WGS72BE_UTM_zone_29S");
    m.insert(32530, "PCS_WGS72BE_UTM_zone_30S");
    m.insert(32531, "PCS_WGS72BE_UTM_zone_31S");
    m.insert(32532, "PCS_WGS72BE_UTM_zone_32S");
    m.insert(32533, "PCS_WGS72BE_UTM_zone_33S");
    m.insert(32534, "PCS_WGS72BE_UTM_zone_34S");
    m.insert(32535, "PCS_WGS72BE_UTM_zone_35S");
    m.insert(32536, "PCS_WGS72BE_UTM_zone_36S");
    m.insert(32537, "PCS_WGS72BE_UTM_zone_37S");
    m.insert(32538, "PCS_WGS72BE_UTM_zone_38S");
    m.insert(32539, "PCS_WGS72BE_UTM_zone_39S");
    m.insert(32540, "PCS_WGS72BE_UTM_zone_40S");
    m.insert(32541, "PCS_WGS72BE_UTM_zone_41S");
    m.insert(32542, "PCS_WGS72BE_UTM_zone_42S");
    m.insert(32543, "PCS_WGS72BE_UTM_zone_43S");
    m.insert(32544, "PCS_WGS72BE_UTM_zone_44S");
    m.insert(32545, "PCS_WGS72BE_UTM_zone_45S");
    m.insert(32546, "PCS_WGS72BE_UTM_zone_46S");
    m.insert(32547, "PCS_WGS72BE_UTM_zone_47S");
    m.insert(32548, "PCS_WGS72BE_UTM_zone_48S");
    m.insert(32549, "PCS_WGS72BE_UTM_zone_49S");
    m.insert(32550, "PCS_WGS72BE_UTM_zone_50S");
    m.insert(32551, "PCS_WGS72BE_UTM_zone_51S");
    m.insert(32552, "PCS_WGS72BE_UTM_zone_52S");
    m.insert(32553, "PCS_WGS72BE_UTM_zone_53S");
    m.insert(32554, "PCS_WGS72BE_UTM_zone_54S");
    m.insert(32555, "PCS_WGS72BE_UTM_zone_55S");
    m.insert(32556, "PCS_WGS72BE_UTM_zone_56S");
    m.insert(32557, "PCS_WGS72BE_UTM_zone_57S");
    m.insert(32558, "PCS_WGS72BE_UTM_zone_58S");
    m.insert(32559, "PCS_WGS72BE_UTM_zone_59S");
    m.insert(32560, "PCS_WGS72BE_UTM_zone_60S");
    m.insert(32601, "PCS_WGS84_UTM_zone_1N");
    m.insert(32602, "PCS_WGS84_UTM_zone_2N");
    m.insert(32603, "PCS_WGS84_UTM_zone_3N");
    m.insert(32604, "PCS_WGS84_UTM_zone_4N");
    m.insert(32605, "PCS_WGS84_UTM_zone_5N");
    m.insert(32606, "PCS_WGS84_UTM_zone_6N");
    m.insert(32607, "PCS_WGS84_UTM_zone_7N");
    m.insert(32608, "PCS_WGS84_UTM_zone_8N");
    m.insert(32609, "PCS_WGS84_UTM_zone_9N");
    m.insert(32610, "PCS_WGS84_UTM_zone_10N");
}

fn add_projected_cs_type_names_32611_to_32658(m: &mut HashMap<u16, &'static str>)
    ensures
        extends_names(old(m)@, final(m)@, 32611, 32658, |code: u16| projected_cs_type_names_32611_to_32658(code)),
{
    broadcast use vstd::std_specs::hash::group_hash_axioms;

    m.insert(32611, "PCS_WGS84_UTM_zone_11N");
    m.insert(32612, "PCS_WGS84_UTM_zone_12N");
    m.insert(32613, "PCS_WGS84_UTM_zone_13N");
    m.insert(32614, "PCS_WGS84_UTM_zone_14N");
    m.insert(32615, "PCS_WGS84_UTM_zone_15N");
    m.insert(32616, "PCS_WGS84_UTM_zone_16N");
    m.insert(32617, "PCS_WGS84_UTM_zone_17N");
    m.insert(32618, "PCS_WGS84_UTM_zone_18N");
    m.insert(32619, "PCS_WGS84_UTM_zone_19N");
    m.insert(32620, "PCS_WGS84_UTM_zone_20N");
    m.insert(32621, "PCS_WGS84_UTM_zone_21N");
    m.insert(32622, "PCS_WGS84_UTM_zone_22N");
    m.insert(32623, "PCS_WGS84_UTM_zone_23N");
    m.insert(32624, "PCS_WGS84_UTM_zone_24N");
    m.insert(32625, "PCS_WGS84_UTM_zone_25N");
    m.insert(32626, "PCS_WGS84_UTM_zone_26N");
    m.insert(32627, "PCS_WGS84_UTM_zone_27N");
    m.insert(32628, "PCS_WGS84_UTM_zone_28N");
    m.insert(32629, "PCS_WGS84_UTM_zone_29N");
    m.insert(32630, "PCS_WGS84_UTM_zone_30N");
    m.insert(32631, "PCS_WGS84_UTM_zone_31N");
    m.insert(32632, "PCS_WGS84_UTM_zone_32N");
    m.insert(32633, "PCS_WGS84_UTM_zone_33N");
    m.insert(32634, "PCS_WGS84_UTM_zone_34N");
    m.insert(32635, "PCS_WGS84_UTM_zone_35N");
    m.insert(32636, "PCS_WGS84_UTM_zone_36N");
    m.insert(32637, "PCS_WGS84_UTM_zone_37N");
    m.insert(32638, "PCS_WGS84_UTM_zone_38N");
    m.insert(32639, "PCS_WGS84_UTM_zone_39N");
    m.insert(32640, "PCS_WGS84_UTM_zone_40N");
    m.insert(32641, "PCS_WGS84_UTM_zone_41N");
    m.insert(32642, "PCS_WGS84_UTM_zone_42N");
    m.insert(32643, "PCS_WGS84_UTM_zone_43N");
    m.insert(32644, "PCS_WGS84_UTM_zone_44N");
    m.insert(32645, "PCS_WGS84_UTM_zone_45N");
    m.insert(32646, "PCS_WGS84_UTM_zone_46N");
    m.insert(32647, "PCS_WGS84_UTM_zone_47N");
    m.insert(32648, "PCS_WGS84_UTM_zone_48N");
    m.insert(32649, "PCS_WGS84_UTM_zone_49N");
    m.insert(32650, "PCS_WGS84_UTM_zone_50N");
    m.insert(32651, "PCS_WGS84_UTM_zone_51N");
    m.insert(32652, "PCS_WGS84_UTM_zone_52N");
    m.insert(32653, "PCS_WGS84_UTM_zone_53N");
    m.insert(32654, "PCS_WGS84_UTM_zone_54N");
    m.insert(32655, "PCS_WGS84_UTM_zone_55N");
    m.insert(32656, "PCS_WGS84_UTM_zone_56N");
    m.insert(32657, "PCS_WGS84_UTM_zone_57N");
    m.insert(32658, "PCS_WGS84_UTM_zone_58N");
}

fn add_projected_cs_type_names_32659_to_32746(m: &mut HashMap<u16, &'static str>)
    ensures
        extends_names(old(m)@, final(m)@, 32659, 32746, |code: u16| projected_cs_type_names_32659_to_32746(code)),
{
    broadcast use vstd::std_specs::hash::group_hash_axioms;

    m.insert(32659, "PCS_WGS84_UTM_zone_59N");
    m.insert(32660, "PCS_WGS84_UTM_zone_60N");
    m.insert(32701, "PCS_WGS84_UTM_zone_1S");
    m.insert(32702, "PCS_WGS84_UTM_zone_2S");
    m.insert(32703, "PCS_WGS84_UTM_zone_3S");
    m.insert(32704, "PCS_WGS84_UTM_zone_4S");
    m.insert(32705, "PCS_WGS84_UTM_zone_5S");
    m.insert(32706, "PCS_WGS84_UTM_zone_6S");
    m.insert(32707, "PCS_WGS84_UTM_zone_7S");
    m.insert(32708, "PCS_WGS84_UTM_zone_8S");
    m.insert(32709, "PCS_WGS84_UTM_zone_9S");
    m.insert(32710, "PCS_WGS84_UTM_zone_10S");
    m.insert(32711, "PCS_WGS84_UTM_zone_11S");
    m.insert(32712, "PCS_WGS84_UTM_zone_12S");
    m.insert(32713, "PCS_WGS84_UTM_zone_13S");
    m.insert(32714, "PCS_WGS84_UTM_zone_14S");
    m.insert(32715, "PCS_WGS84_UTM_zone_15S");
    m.insert(32716, "PCS_WGS84_UTM_zone_16S");
    m.insert(32717, "PCS_WGS84_UTM_zone_17S");
    m.insert(32718, "PCS_WGS84_UTM_zone_18S");
    m.insert(32719, "PCS_WGS84_UTM_zone_19S");
    m.insert(32720, "PCS_WGS84_UTM_zone_20S");
    m.insert(32721, "PCS_WGS84_UTM_zone_21S");
    m.insert(32722, "PCS_WGS84_UTM_zone_22S");
    m.insert(32723, "PCS_WGS84_UTM_zone_23S");
    m.insert(32724, "PCS_WGS84_UTM_zone_24S");
    m.insert(32725, "PCS_WGS84_UTM_zone_25S");
    m.insert(32726, "PCS_WGS84_UTM_zone_26S");
    m.insert(32727, "PCS_WGS84_UTM_zone_27S");
    m.insert(32728, "PCS_WGS84_UTM_zone_28S");
    m.insert(32729, "PCS_WGS84_UTM_zone_29S");
    m.insert(32730, "PCS_WGS84_UTM_zone_30S");
    m.insert(32731, "PCS_WGS84_UTM_zone_31S");
    m.insert(32732, "PCS_WGS84_UTM_zone_32S");
    m.insert(32733, "PCS_WGS84_UTM_zone_33S");
    m.insert(32734, "PCS_WGS84_UTM_zone_34S");
    m.insert(32735, "PCS_WGS84_UTM_zone_35S");
    m.insert(32736, "PCS_WGS84_UTM_zone_36S");
    m.insert(32737, "PCS_WGS84_UTM_zone_37S");
    m.insert(32738, "PCS_WGS84_UTM_zone_38S");
    m.insert(32739, "PCS_WGS84_UTM_zone_39S");
    m.insert(32740, "PCS_WGS84_UTM_zone_40S");
    m.insert(32741, "PCS_WGS84_UTM_zone_41S");
    m.insert(32742, "PCS_WGS84_UTM_zone_42S");
    m.insert(32743, "PCS_WGS84_UTM_zone_43S");
    m.insert(32744, "PCS_WGS84_UTM_zone_44S");
    m.insert(32745, "PCS_WGS84_UTM_zone_45S");
    m.insert(32746, "PCS_WGS84_UTM_zone_46S");
}

fn add_projected_cs_type_names_32747_to_32760(m: &mut HashMap<u16, &'static str>)
    ensures
        extends_names(old(m)@, final(m)@, 32747, 65535, |code: u16| projected_cs_type_names_32747_to_32760(code)),
{
    broadcast use vstd::std_specs::hash::group_hash_axioms;

    m.insert(32747, "PCS_WGS84_UTM_zone_47S");
    m.insert(32748, "PCS_WGS84_UTM_zone_48S");
    m.insert(32749, "PCS_WGS84_UTM_zone_49S");
    m.insert(32750, "PCS_WGS84_UTM_zone_50S");
    m.insert(32751, "PCS_WGS84_UTM_zone_51S");
    m.insert(32752, "PCS_WGS84_UTM_zone_52S");
    m.insert(32753, "PCS_WGS84_UTM_zone_53S");
    m.insert(32754, "PCS_WGS84_UTM_zone_54S");
    m.insert(32755, "PCS_WGS84_UTM_zone_55S");
    m.insert(32756, "PCS_WGS84_UTM_zone_56S");
    m.insert(32757, "PCS_WGS84_UTM_zone_57S");
    m.insert(32758, "PCS_WGS84_UTM_zone_58S");
    m.insert(32759, "PCS_WGS84_UTM_zone_59S");
    m.insert(32760, "PCS_WGS84_UTM_zone_60S");
}

/// Builds the table of projected coordinate system names.
pub(crate) fn projected_cs_type_map() -> (m: HashMap<u16, &'static str>)
    ensures
        holds_names(m@, |code: u16| projected_cs_type_name(code)),
{
    let mut m: HashMap<u16, &'static str> = HashMap::new();
    add_projected_cs_type_names_20137_to_21148(&mut m);
    add_projected_cs_type_names_21149_to_22992(&mut m);
    add_projected_cs_type_names_22993_to_24500(&mut m);
    add_projected_cs_type_names_24547_to_26712(&mut m);
    add_projected_cs_type_names_26713_to_26766(&mut m);
    add_projected_cs_type_names_26767_to_26915(&mut m);
    add_projected_cs_type_names_26916_to_26969(&mut m);
    add_projected_cs_type_names_26970_to_28349(&mut m);
    add_projected_cs_type_names_28350_to_28473(&mut m);
    add_projected_cs_type_names_28474_to_29900(&mut m);
    add_projected_cs_type_names_30200_to_32026(&mut m);
    add_projected_cs_type_names_32027_to_32119(&mut m);
    add_projected_cs_type_names_32120_to_32210(&mut m);
    add_projected_cs_type_names_32211_to_32258(&mut m);
    add_projected_cs_type_names_32259_to_32346(&mut m);
    add_projected_cs_type_names_32347_to_32434(&mut m);
    add_projected_cs_type_names_32435_to_32522(&mut m);
    add_projected_cs_type_names_32523_to_32610(&mut m);
    add_projected_cs_type_names_32611_to_32658(&mut m);
    add_projected_cs_type_names_32659_to_32746(&mut m);
    add_projected_cs_type_names_32747_to_32760(&mut m);
    m
}

} // verus!
