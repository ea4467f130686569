//! What the GeoKeys say, as text: a header of three lines, then a line to
//! each key.

use vstd::prelude::*;
use vstd::string::*;
use crate::decimal::{decimal, decimal_text};
use crate::geokeys::{
    lossy_text, utf8_lossy, GeoKeyReport, KeyReport, KeyValue, GEOGRAPHIC_TYPE_KEY,
    PROJECTED_CS_TYPE_KEY,
};

verus! {

/// Whether the key with the given code names a coordinate system,
/// geographic or projected, by its EPSG code.
pub open spec fn names_coordinate_system(code: u16) -> bool {
    code == PROJECTED_CS_TYPE_KEY || code == GEOGRAPHIC_TYPE_KEY
}

/// The text of an empty directory.
pub open spec fn no_keys_text() -> Seq<char> {
    "GeoKeys have not been set."@
}

/// The three lines on the directory's header.
pub open spec fn header_text_of(version: u16, revision: u16, minor_revision: u16) -> Seq<char> {
    "GeoKey Info:\n    Version: "@ + decimal(version as int) + "\n    Key revision: "@ + decimal(
        revision as int,
    ) + "."@ + decimal(minor_revision as int)
}

/// How the line of a key starts: on a new line its name, then its code in
/// brackets that are left open.
pub open spec fn line_start_of(name: Seq<char>, code: u16) -> Seq<char> {
    "\n"@ + name + " (code="@ + decimal(code as int)
}

/// What is said of a code of a key that has a keyword table. `crs` is the
/// description of the coordinate system with that EPSG code.
///
/// - The code has a name: the name, then in brackets the description where
///   the key names a coordinate system, the code where it does not.
/// - The code has no name: the description where the key names a
///   coordinate system, `Unrecognized value` and the code in brackets where
///   it does not.
pub open spec fn keyword_text_of(
    keyword: Option<&'static str>,
    value: u16,
    code: u16,
    crs: Seq<char>,
) -> Seq<char> {
    match keyword {
        Some(word) => if names_coordinate_system(code) {
            word@ + " ("@ + crs + ")"@
        } else {
            word@ + " ("@ + decimal(value as int) + ")"@
        },
        None => if names_coordinate_system(code) {
            crs
        } else {
            "Unrecognized value ("@ + decimal(value as int) + ")"@
        },
    }
}

/// The line of a key with the given name, code and value. `crs` is the
/// description of the coordinate system whose EPSG code the value is,
/// `doubles` the text of the key's doubles.
///
/// - Text: the name, `(code=..., type=ASCII): ` and the text.
/// - Doubles: the name, `(code=..., type=Double, count=...): ` and
///   `doubles`.
/// - A code or a number: the name, `(code=...): ` and what is said of it.
/// - A key that points into another field: `Unknown tag`, on no line of its
///   own.
pub open spec fn key_line_of(
    name: Seq<char>,
    code: u16,
    value: KeyValue,
    crs: Seq<char>,
    doubles: Seq<char>,
) -> Seq<char> {
    match value {
        KeyValue::Ascii(text) => line_start_of(name, code) + ", type=ASCII): "@ + utf8_lossy(
            text@,
        ),
        KeyValue::Doubles(d) => line_start_of(name, code) + ", type=Double, count="@ + decimal(
            d@.len() as int,
        ) + "): "@ + doubles,
        KeyValue::Keyword { name: keyword, value: v } => line_start_of(name, code) + "): "@
            + keyword_text_of(keyword, v, code, crs),
        KeyValue::Plain(v) => line_start_of(name, code) + "): "@ + decimal(v as int),
        KeyValue::UnknownLocation => "Unknown tag"@,
    }
}

/// The lines of the first `n` keys, one after the other. `crs[i]` and
/// `doubles[i]` are the texts for key `i`.
pub open spec fn key_lines_of(
    keys: Seq<KeyReport>,
    crs: Seq<String>,
    doubles: Seq<String>,
    n: int,
) -> Seq<char>
    decreases n,
{
    if n <= 0 {
        Seq::empty()
    } else {
        key_lines_of(keys, crs, doubles, n - 1) + key_line_of(
            keys[n - 1].name@,
            keys[n - 1].code,
            keys[n - 1].value,
            crs[n - 1]@,
            doubles[n - 1]@,
        )
    }
}

/// The text of a report: that of an empty directory where there is none,
/// else the header and the lines of the keys.
pub open spec fn report_text_of(
    report: Option<GeoKeyReport>,
    crs: Seq<String>,
    doubles: Seq<String>,
) -> Seq<char> {
    match report {
        None => no_keys_text(),
        Some(r) => header_text_of(r.version, r.revision, r.minor_revision) + key_lines_of(
            r.keys@,
            crs,
            doubles,
            r.keys@.len() as int,
        ),
    }
}

/// Whether the line of the key holds the description of a coordinate
/// system: the key names one by a code.
pub fn wants_crs(key: &KeyReport) -> (b: bool)
    ensures
        b == (key.value is Keyword && names_coordinate_system(key.code)),
{
    match &key.value {
        KeyValue::Keyword { .. } => key.code == PROJECTED_CS_TYPE_KEY || key.code
            == GEOGRAPHIC_TYPE_KEY,
        _ => false,
    }
}

/// How the line of a key starts.
fn line_start(name: &str, code: u16) -> (text: String)
    ensures
        text@ == line_start_of(name@, code),
{
    let digits = decimal_text(code as u64);
    String::from_str("\n").concat(name).concat(" (code=").concat(digits.as_str())
}

/// What is said of a code of a key that has a keyword table.
fn keyword_text(keyword: &Option<&'static str>, value: u16, code: u16, crs: &str) -> (text: String)
    ensures
        text@ == keyword_text_of(*keyword, value, code, crs@),
{
    let names_system = code == PROJECTED_CS_TYPE_KEY || code == GEOGRAPHIC_TYPE_KEY;
    let digits = decimal_text(value as u64);
    match keyword {
        Some(word) => {
            if names_system {
                String::from_str(*word).concat(" (").concat(crs).concat(")")
            } else {
                String::from_str(*word).concat(" (").concat(digits.as_str()).concat(")")
            }
        },
        None => {
            if names_system {
                String::from_str(crs)
            } else {
                String::from_str("Unrecognized value (").concat(digits.as_str()).concat(")")
            }
        },
    }
}

/// The line of a key. `crs` is the description of the coordinate system
/// whose EPSG code the key's value is, `doubles` the text of its doubles;
/// each is read only where the line holds it.
pub fn key_line(key: &KeyReport, crs: &str, doubles: &str) -> (line: String)
    ensures
        line@ == key_line_of(key.name@, key.code, key.value, crs@, doubles@),
{
    match &key.value {
        KeyValue::Ascii(text) => {
            let value = lossy_text(text.as_slice());
            line_start(key.name.as_str(), key.code).concat(", type=ASCII): ").concat(
                value.as_str(),
            )
        },
        KeyValue::Doubles(d) => {
            let count = decimal_text(d.len() as u64);
            line_start(key.name.as_str(), key.code).concat(", type=Double, count=").concat(
                count.as_str(),
            ).concat("): ").concat(doubles)
        },
        KeyValue::Keyword { name, value } => {
            let said = keyword_text(name, *value, key.code, crs);
            line_start(key.name.as_str(), key.code).concat("): ").concat(said.as_str())
        },
        KeyValue::Plain(value) => {
            let digits = decimal_text(*value as u64);
            line_start(key.name.as_str(), key.code).concat("): ").concat(digits.as_str())
        },
        KeyValue::UnknownLocation => String::from_str("Unknown tag"),
    }
}

/// The text of a report. `crs[i]` is the description of the coordinate
/// system whose EPSG code the value of key `i` is, `doubles[i]` the text of
/// the doubles of key `i`.
pub fn report_text(report: &Option<GeoKeyReport>, crs: &Vec<String>, doubles: &Vec<String>) -> (text:
    String)
    requires
        report matches Some(r) ==> crs@.len() == r.keys@.len() && doubles@.len() == r.keys@.len(),
    ensures
        text@ == report_text_of(*report, crs@, doubles@),
{
    let r = match report {
        None => {
            return String::from_str("GeoKeys have not been set.");
        },
        Some(r) => r,
    };
    let version = decimal_text(r.version as u64);
    let revision = decimal_text(r.revision as u64);
    let minor = decimal_text(r.minor_revision as u64);
    let mut text = String::from_str("GeoKey Info:\n    Version: ").concat(
        version.as_str(),
    ).concat("\n    Key revision: ").concat(revision.as_str()).concat(".").concat(minor.as_str());
    let ghost header = text@;
    let mut i: usize = 0;
    assert(text@ =~= header + key_lines_of(r.keys@, crs@, doubles@, 0));
    while i < r.keys.len()
        invariant
            i <= r.keys.len(),
            crs@.len() == r.keys@.len(),
            doubles@.len() == r.keys@.len(),
            text@ == header + key_lines_of(r.keys@, crs@, doubles@, i as int),
        decreases r.keys.len() - i,
    {
        let line = key_line(&r.keys[i], crs[i].as_str(), doubles[i].as_str());
        text.append(line.as_str());
        i += 1;
        assert(text@ =~= header + key_lines_of(r.keys@, crs@, doubles@, i as int));
    }
    text
}

} // verus!
