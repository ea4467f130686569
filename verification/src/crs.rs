//! The coordinate reference system of a file: the GeoKeys that its
//! variable length records hold.

use vstd::prelude::*;
use crate::bytes::Endianness;
use crate::error::LasError;
use crate::file::LasFile;
use crate::geokeys::{ascii_params_of, u16s_of, u64s_of, GeoKeys, GeoKeysView};
use crate::vlr::{views_of, Vlr, VlrView};

verus! {

/// The record ID of the GeoKey directory.
pub const KEY_DIRECTORY_RECORD: u16 = 34735;

/// The record ID of the double parameters of the GeoKeys.
pub const DOUBLE_PARAMS_RECORD: u16 = 34736;

/// The record ID of the ASCII parameters of the GeoKeys.
pub const ASCII_PARAMS_RECORD: u16 = 34737;

/// The owner of the records that hold the GeoKeys: `LASF_Projection`.
pub open spec fn projection_owner() -> Seq<u8> {
    seq![
        0x4Cu8, 0x41u8, 0x53u8, 0x46u8, 0x5Fu8, 0x50u8, 0x72u8, 0x6Fu8, 0x6Au8, 0x65u8, 0x63u8,
        0x74u8, 0x69u8, 0x6Fu8, 0x6Eu8,
    ]
}

/// The GeoKeys that `keys` become by the record `v`: with its numbers
/// after the directory or after the double parameters, or with its text as
/// the ASCII parameters, where it is a record of the GeoKeys; unchanged
/// where it is none. The numbers are stored low byte first. `None` where
/// the payload of a record of numbers ends within a number.
pub open spec fn keys_with(keys: GeoKeysView, v: VlrView) -> Option<GeoKeysView> {
    if v.is_named(projection_owner(), KEY_DIRECTORY_RECORD) {
        if v.payload.len() % 2 == 0 {
            Some(
                GeoKeysView {
                    directory: keys.directory + u16s_of(v.payload, Endianness::LittleEndian),
                    ..keys
                },
            )
        } else {
            None
        }
    } else if v.is_named(projection_owner(), DOUBLE_PARAMS_RECORD) {
        if v.payload.len() % 8 == 0 {
            Some(
                GeoKeysView {
                    doubles: keys.doubles + u64s_of(v.payload, Endianness::LittleEndian),
                    ..keys
                },
            )
        } else {
            None
        }
    } else if v.is_named(projection_owner(), ASCII_PARAMS_RECORD) {
        Some(GeoKeysView { ascii: ascii_params_of(v.payload), ..keys })
    } else {
        Some(keys)
    }
}

/// The GeoKeys that the first `n` records hold, taken in the order of the
/// chain; `None` where the payload of one of them ends within a number.
pub open spec fn keys_of(vlrs: Seq<VlrView>, n: int) -> Option<GeoKeysView>
    decreases n,
{
    if n <= 0 {
        Some(GeoKeysView { directory: Seq::empty(), doubles: Seq::empty(), ascii: Seq::empty() })
    } else {
        match keys_of(vlrs, n - 1) {
            Some(keys) => keys_with(keys, vlrs[n - 1]),
            None => None,
        }
    }
}

/// Once the records hold no GeoKeys, more of them hold none.
pub proof fn lemma_keys_stay_none(vlrs: Seq<VlrView>, k: int, n: int)
    requires
        0 <= k <= n,
        keys_of(vlrs, k) is None,
    ensures
        keys_of(vlrs, n) is None,
    decreases n,
{
    if k < n {
        lemma_keys_stay_none(vlrs, k, n - 1);
    }
}

/// The GeoKeys that the records hold. Fails with `TruncatedVlr` where the
/// payload of a record of the GeoKey directory, or of the double
/// parameters, ends within a number.
pub fn geokeys_of(vlrs: &Vec<Vlr>) -> (r: Result<GeoKeys, LasError>)
    ensures
        match keys_of(views_of(vlrs@), vlrs@.len() as int) {
            Some(held) => r matches Ok(keys) && keys@ == held,
            None => r matches Err(e) && e == LasError::TruncatedVlr,
        },
{
    let owner: Vec<u8> = vec![
        0x4Cu8, 0x41u8, 0x53u8, 0x46u8, 0x5Fu8, 0x50u8, 0x72u8, 0x6Fu8, 0x6Au8, 0x65u8, 0x63u8,
        0x74u8, 0x69u8, 0x6Fu8, 0x6Eu8,
    ];
    assert(owner@ =~= projection_owner());
    let mut keys = GeoKeys::new();
    let mut i: usize = 0;
    let ghost views = views_of(vlrs@);
    assert(keys@.directory =~= keys_of(views, 0).unwrap().directory);
    assert(keys@.doubles =~= keys_of(views, 0).unwrap().doubles);
    assert(keys@.ascii =~= keys_of(views, 0).unwrap().ascii);
    while i < vlrs.len()
        invariant
            i <= vlrs.len(),
            owner@ == projection_owner(),
            views == views_of(vlrs@),
            keys_of(views, i as int) == Some(keys@),
        decreases vlrs.len() - i,
    {
        let v = &vlrs[i];
        let ghost before = keys@;
        assert(views[i as int] == v@);
        if v.is_named(owner.as_slice(), KEY_DIRECTORY_RECORD) {
            if v.payload().len() % 2 != 0 {
                proof {
                    lemma_keys_stay_none(views, i + 1, vlrs@.len() as int);
                }
                return Err(LasError::TruncatedVlr);
            }
            keys.add_key_directory(v.payload(), Endianness::LittleEndian);
        } else if v.is_named(owner.as_slice(), DOUBLE_PARAMS_RECORD) {
            if v.payload().len() % 8 != 0 {
                proof {
                    lemma_keys_stay_none(views, i + 1, vlrs@.len() as int);
                }
                return Err(LasError::TruncatedVlr);
            }
            keys.add_double_params(v.payload(), Endianness::LittleEndian);
        } else if v.is_named(owner.as_slice(), ASCII_PARAMS_RECORD) {
            keys.add_ascii_params(v.payload());
        }
        assert(keys_with(before, v@) == Some(keys@));
        i += 1;
    }
    Ok(keys)
}

impl LasFile {
    /// The GeoKeys that the file's variable length records hold. Fails with
    /// `TruncatedVlr` where the payload of a record of the GeoKey directory,
    /// or of the double parameters, ends within a number.
    pub fn geokeys(&self) -> (r: Result<GeoKeys, LasError>)
        ensures
            match keys_of(self@.vlrs, self@.vlrs.len() as int) {
                Some(held) => r matches Ok(keys) && keys@ == held,
                None => r matches Err(e) && e == LasError::TruncatedVlr,
            },
    {
        geokeys_of(self.vlrs())
    }
}

} // verus!
