//! The GeoKey directory of a GeoTIFF or LAS file: the keys that describe
//! the coordinate reference system, and what each of them says.

use std::collections::HashMap;
use vstd::prelude::*;
use vstd::string::*;
use crate::bytes::{
    push_u16, push_u64, read_u16, read_u16_be, read_u64, read_u64_be, u16_at, u16_be_at,
    u16_bytes, u64_at, u64_be_at, u64_bytes, Endianness,
};
use crate::keyword_tables::{get_keyword_map, has_keyword_table, keyword_name};
use crate::tag_names::{get_keys_map, holds_tags, tag_name};
use crate::tiff_tag::{unknown_tag_name, TiffTag};

verus! {

/// The tag of the TIFF field that holds the ASCII parameters of the keys.
pub const ASCII_PARAMS_TAG: u16 = 34737;

/// The tag of the TIFF field that holds the double parameters of the keys.
pub const DOUBLE_PARAMS_TAG: u16 = 34736;

/// The key that names a geographic coordinate system.
pub const GEOGRAPHIC_TYPE_KEY: u16 = 2048;

/// The key that names a projected coordinate system.
pub const PROJECTED_CS_TYPE_KEY: u16 = 3072;

/// One entry of an image file directory, as a GeoKey is handed on to code
/// that reads TIFF fields.
#[derive(Clone, Debug, PartialEq, Eq)]
pub struct Ifd {
    pub tag: u16,
    pub ifd_type: u16,
    pub num_values: u64,
    pub offset: u64,
    pub data: Vec<u8>,
    pub byte_order: Endianness,
}

impl Ifd {
    /// An entry with the given fields.
    pub fn new(
        tag: u16,
        ifd_type: u16,
        num_values: u64,
        offset: u64,
        data: Vec<u8>,
        byte_order: Endianness,
    ) -> (ifd: Ifd)
        ensures
            ifd == (Ifd { tag, ifd_type, num_values, offset, data, byte_order }),
    {
        Ifd { tag, ifd_type, num_values, offset, data, byte_order }
    }
}

/// What a GeoKey directory holds: the directory itself, four numbers to a
/// key after a header of four; the double parameters, each as the 64 bits of
/// an IEEE 754 number; and the ASCII parameters as UTF-8 text.
pub struct GeoKeysView {
    pub directory: Seq<u16>,
    pub doubles: Seq<u64>,
    pub ascii: Seq<u8>,
}

/// The GeoKeys of a file.
#[derive(Clone, Debug)]
pub struct GeoKeys {
    geo_key_directory: Vec<u16>,
    geo_double_params: Vec<u64>,
    geo_ascii_params: Vec<u8>,
}

impl View for GeoKeys {
    type V = GeoKeysView;

    closed spec fn view(&self) -> GeoKeysView {
        GeoKeysView {
            directory: self.geo_key_directory@,
            doubles: self.geo_double_params@,
            ascii: self.geo_ascii_params@,
        }
    }
}

/// What is said of one key.
#[derive(Clone, Debug, PartialEq, Eq)]
pub enum KeyValue {
    /// Text from the ASCII parameters, as UTF-8, without its `|` marks. It
    /// starts and ends where a character of the parameters does.
    Ascii(Vec<u8>),
    /// Numbers from the double parameters, each as its 64 bits.
    Doubles(Vec<u64>),
    /// A code of a key that has a keyword table, with the name that the
    /// table gives it, if any.
    Keyword { name: Option<&'static str>, value: u16 },
    /// A number of a key that has no keyword table.
    Plain(u16),
    /// The key points into a TIFF field that holds no GeoKey values.
    UnknownLocation,
}

/// One key of the directory: its name, its code and its value.
#[derive(Clone, Debug, PartialEq, Eq)]
pub struct KeyReport {
    pub name: String,
    pub code: u16,
    pub value: KeyValue,
}

/// The directory's header and its keys, one by one.
#[derive(Clone, Debug, PartialEq, Eq)]
pub struct GeoKeyReport {
    pub version: u16,
    pub revision: u16,
    pub minor_revision: u16,
    pub keys: Vec<KeyReport>,
}

/// The numbers that `data` holds, two bytes each, in the given byte order.
pub open spec fn u16s_of(data: Seq<u8>, order: Endianness) -> Seq<u16> {
    Seq::new(
        data.len() / 2,
        |i: int|
            match order {
                Endianness::LittleEndian => u16_at(data, 2 * i),
                Endianness::BigEndian => u16_be_at(data, 2 * i),
            },
    )
}

/// The 64-bit patterns that `data` holds, eight bytes each, in the given
/// byte order.
pub open spec fn u64s_of(data: Seq<u8>, order: Endianness) -> Seq<u64> {
    Seq::new(
        data.len() / 8,
        |i: int|
            match order {
                Endianness::LittleEndian => u64_at(data, 8 * i),
                Endianness::BigEndian => u64_be_at(data, 8 * i),
            },
    )
}

/// The text that stands for a byte string: its UTF-8 reading, with U+FFFD
/// in place of every part that is not UTF-8.
pub uninterp spec fn utf8_lossy(data: Seq<u8>) -> Seq<char>;

/// The ASCII parameters that the bytes `data` give: the text that they
/// stand for, without the white space at its start and at its end, as
/// UTF-8.
pub open spec fn ascii_params_of(data: Seq<u8>) -> Seq<u8> {
    vstd::utf8::encode_utf8(trim_end(trim_start(utf8_lossy(data))))
}

/// The characters with the Unicode property White_Space.
pub open spec fn is_white_space(c: char) -> bool {
    let n = c as u32;
    ||| 0x09 <= n <= 0x0D
    ||| n == 0x20
    ||| n == 0x85
    ||| n == 0xA0
    ||| n == 0x1680
    ||| 0x2000 <= n <= 0x200A
    ||| n == 0x2028
    ||| n == 0x2029
    ||| n == 0x202F
    ||| n == 0x205F
    ||| n == 0x3000
}

/// `s` without the white space at its start.
pub open spec fn trim_start(s: Seq<char>) -> Seq<char>
    decreases s.len(),
{
    if s.len() > 0 && is_white_space(s[0]) {
        trim_start(s.drop_first())
    } else {
        s
    }
}

/// `s` without the white space at its end.
pub open spec fn trim_end(s: Seq<char>) -> Seq<char>
    decreases s.len(),
{
    if s.len() > 0 && is_white_space(s.last()) {
        trim_end(s.drop_last())
    } else {
        s
    }
}

/// Whether a character of the UTF-8 text `s` starts at `at`, or the text
/// ends there: `at` is the start or the end of `s`, or the byte at `at` is
/// none that continues a character.
pub open spec fn is_text_boundary(s: Seq<u8>, at: int) -> bool {
    at == 0 || at == s.len() || (0 < at < s.len() && !(0x80 <= s[at] < 0xC0))
}

/// `s` without the `|` marks that end the strings of the ASCII parameters.
pub open spec fn without_bars(s: Seq<u8>) -> Seq<u8>
    decreases s.len(),
{
    if s.len() == 0 {
        s
    } else if s.last() == 0x7C {
        without_bars(s.drop_last())
    } else {
        without_bars(s.drop_last()).push(s.last())
    }
}

/// The bytes of the given 64-bit patterns, eight to each, low byte first.
pub open spec fn u64s_bytes(d: Seq<u64>) -> Seq<u8>
    decreases d.len(),
{
    if d.len() == 0 {
        Seq::empty()
    } else {
        u64s_bytes(d.drop_last()) + u64_bytes(d.last())
    }
}

impl GeoKeysView {
    /// The number of keys that the directory's header declares.
    pub open spec fn number_of_keys(self) -> int {
        self.directory[3] as int
    }

    /// The code of key `i`.
    pub open spec fn key_id(self, i: int) -> u16 {
        self.directory[4 * (i + 1)]
    }

    /// The TIFF field in which the value of key `i` lies; 0 where the
    /// value lies in the directory itself.
    pub open spec fn location(self, i: int) -> u16 {
        self.directory[4 * (i + 1) + 1]
    }

    /// The number of values of key `i`.
    pub open spec fn count(self, i: int) -> u16 {
        self.directory[4 * (i + 1) + 2]
    }

    /// The value of key `i`, or the place of its first value in the field
    /// that holds it.
    pub open spec fn value_offset(self, i: int) -> u16 {
        self.directory[4 * (i + 1) + 3]
    }

    /// The directory holds its header and every key that the header declares.
    pub open spec fn holds_keys(self) -> bool {
        self.directory.len() >= 4 && self.directory.len() >= 4 + 4 * self.number_of_keys()
    }

    /// The values of key `i` lie within the field that it points into: the
    /// place after the last of them is a number of 16 bits and lies within
    /// the field, and text starts and ends where a character does.
    pub open spec fn values_in_reach(self, i: int) -> bool {
        let from = self.value_offset(i) as int;
        let to = from + self.count(i);
        &&& self.location(i) == ASCII_PARAMS_TAG ==> to <= 0xFFFF && to <= self.ascii.len()
            && is_text_boundary(self.ascii, from) && is_text_boundary(self.ascii, to)
        &&& self.location(i) == DOUBLE_PARAMS_TAG ==> to <= 0xFFFF && to <= self.doubles.len()
    }

    /// The directory holds its keys, and the values of each lie within the
    /// field that it points into.
    pub open spec fn well_formed(self) -> bool {
        &&& self.holds_keys()
        &&& forall|i: int| 0 <= i < self.number_of_keys() ==> #[trigger] self.values_in_reach(i)
    }

    /// The TIFF field type under which key `i` is handed on.
    pub open spec fn ifd_type(self, i: int) -> u16 {
        if self.location(i) == ASCII_PARAMS_TAG {
            2
        } else if self.location(i) == DOUBLE_PARAMS_TAG {
            12
        } else if self.location(i) == 0 {
            3
        } else {
            0
        }
    }

    /// The bytes of the values of key `i`: its text without `|`, its doubles
    /// or its number, low byte first.
    pub open spec fn ifd_data(self, i: int) -> Seq<u8> {
        let from = self.value_offset(i) as int;
        let to = from + self.count(i);
        if self.location(i) == ASCII_PARAMS_TAG {
            without_bars(self.ascii.subrange(from, to))
        } else if self.location(i) == DOUBLE_PARAMS_TAG {
            u64s_bytes(self.doubles.subrange(from, to))
        } else if self.location(i) == 0 {
            u16_bytes(self.value_offset(i))
        } else {
            Seq::empty()
        }
    }

    /// `ifd` is the directory entry that stands for key `i`.
    pub open spec fn is_ifd_of(self, ifd: Ifd, i: int, byte_order: Endianness) -> bool {
        &&& ifd.tag == self.key_id(i)
        &&& ifd.ifd_type == self.ifd_type(i)
        &&& ifd.num_values == self.count(i)
        &&& ifd.offset == self.value_offset(i)
        &&& ifd.data@ == self.ifd_data(i)
        &&& ifd.byte_order == byte_order
    }

    /// The last of the first `n` keys that has the code `key`, or -1.
    pub open spec fn last_with_id(self, key: u16, n: int) -> int
        decreases n,
    {
        if n <= 0 {
            -1
        } else if self.key_id(n - 1) == key {
            n - 1
        } else {
            self.last_with_id(key, n - 1)
        }
    }

    /// The value of the last of the first `n` keys that names a coordinate
    /// system, geographic or projected; 0 where none of them does.
    pub open spec fn epsg_code(self, n: int) -> u16
        decreases n,
    {
        if n <= 0 {
            0
        } else if self.key_id(n - 1) == PROJECTED_CS_TYPE_KEY || self.key_id(n - 1)
            == GEOGRAPHIC_TYPE_KEY {
            self.value_offset(n - 1)
        } else {
            self.epsg_code(n - 1)
        }
    }

    /// The number of keys that a report speaks of: those that the header
    /// declares, as far as their place in the directory is at most a quarter
    /// of the number of places that follow the header.
    pub open spec fn reported_keys(self) -> int {
        let limit = (self.directory.len() - 4) / 16;
        if self.number_of_keys() <= limit {
            self.number_of_keys()
        } else {
            limit
        }
    }

    /// The values of key `i` lie within the field that it points into, and
    /// where they are doubles there is at least one.
    pub open spec fn value_reportable(self, i: int) -> bool {
        &&& self.values_in_reach(i)
        &&& self.location(i) == DOUBLE_PARAMS_TAG ==> self.count(i) >= 1
    }

    /// The directory is empty, or it holds its header and the value of
    /// every key that a report speaks of can be reported.
    pub open spec fn reportable(self) -> bool {
        self.directory.len() == 0 || (self.directory.len() >= 4 && forall|i: int|
            0 <= i < self.reported_keys() ==> #[trigger] self.value_reportable(i))
    }

    /// The code under which key `i` is known: its own where the tag table
    /// lists it, else 0.
    pub open spec fn known_code(self, i: int) -> u16 {
        if tag_name(self.key_id(i)) is Some {
            self.key_id(i)
        } else {
            0
        }
    }

    /// The name under which key `i` is known.
    pub open spec fn known_name(self, i: int) -> Seq<char> {
        match tag_name(self.key_id(i)) {
            Some(name) => name,
            None => unknown_tag_name(),
        }
    }

    /// `value` is what the directory says of key `i`.
    pub open spec fn is_value_of(self, value: KeyValue, i: int) -> bool {
        let from = self.value_offset(i) as int;
        let to = from + self.count(i);
        if self.location(i) == ASCII_PARAMS_TAG {
            value matches KeyValue::Ascii(text) && text@ == without_bars(
                self.ascii.subrange(from, to),
            )
        } else if self.location(i) == DOUBLE_PARAMS_TAG {
            value matches KeyValue::Doubles(d) && d@ == self.doubles.subrange(from, to)
        } else if self.location(i) == 0 {
            if has_keyword_table(self.known_code(i)) {
                &&& value matches KeyValue::Keyword { name, value: v }
                &&& v == self.value_offset(i)
                &&& match keyword_name(self.known_code(i), v) {
                    Some(text) => name matches Some(s) && s@ == text,
                    None => name is None,
                }
            } else {
                value matches KeyValue::Plain(v) && v == self.value_offset(i)
            }
        } else {
            value is UnknownLocation
        }
    }

    /// `report` is what the directory says of key `i`.
    pub open spec fn is_report_of(self, report: KeyReport, i: int) -> bool {
        &&& report.name@ == self.known_name(i)
        &&& report.code == self.known_code(i)
        &&& self.is_value_of(report.value, i)
    }
}

/// Calls `String::from_utf8_lossy`: the result is the lossy UTF-8 reading of
/// `data`, which depends on `data` alone.
#[verifier::external_body]
pub(crate) fn lossy_text(data: &[u8]) -> (text: String)
    ensures
        text@ == utf8_lossy(data@),
{
    String::from_utf8_lossy(data).into_owned()
}

/// Calls `str::trim`: the result is `text` without the white space at its
/// start and at its end, white space being the characters with the Unicode
/// property White_Space.
#[verifier::external_body]
fn trim_text(text: &str) -> (trimmed: &str)
    ensures
        trimmed@ == trim_end(trim_start(text@)),
{
    text.trim()
}

/// Copies `s` without its `|` marks.
fn strip_bars(s: &[u8], from: usize, to: usize) -> (out: Vec<u8>)
    requires
        from <= to <= s.len(),
    ensures
        out@ == without_bars(s@.subrange(from as int, to as int)),
{
    let mut out: Vec<u8> = Vec::new();
    let mut i: usize = from;
    while i < to
        invariant
            from <= i <= to <= s.len(),
            out@ == without_bars(s@.subrange(from as int, i as int)),
        decreases to - i,
    {
        assert(s@.subrange(from as int, i + 1).drop_last() =~= s@.subrange(from as int, i as int));
        if s[i] != 0x7C {
            out.push(s[i]);
        }
        i += 1;
    }
    out
}

/// The bytes of `d[from..to]`, eight to each number, low byte first.
fn doubles_bytes(d: &[u64], from: usize, to: usize) -> (out: Vec<u8>)
    requires
        from <= to <= d.len(),
    ensures
        out@ == u64s_bytes(d@.subrange(from as int, to as int)),
{
    let mut out: Vec<u8> = Vec::new();
    let mut i: usize = from;
    while i < to
        invariant
            from <= i <= to <= d.len(),
            out@ == u64s_bytes(d@.subrange(from as int, i as int)),
        decreases to - i,
    {
        assert(d@.subrange(from as int, i + 1).drop_last() =~= d@.subrange(from as int, i as int));
        push_u64(&mut out, d[i]);
        i += 1;
    }
    out
}

/// A copy of `d[from..to]`.
fn copy_doubles(d: &[u64], from: usize, to: usize) -> (out: Vec<u64>)
    requires
        from <= to <= d.len(),
    ensures
        out@ == d@.subrange(from as int, to as int),
{
    let mut out: Vec<u64> = Vec::new();
    let mut i: usize = from;
    while i < to
        invariant
            from <= i <= to <= d.len(),
            out@ == d@.subrange(from as int, i as int),
        decreases to - i,
    {
        out.push(d[i]);
        i += 1;
        assert(out@ =~= d@.subrange(from as int, i as int));
    }
    out
}

impl Default for GeoKeys {
    fn default() -> (keys: GeoKeys)
        ensures
            keys@.directory.len() == 0,
            keys@.doubles.len() == 0,
            keys@.ascii.len() == 0,
    {
        GeoKeys::new()
    }
}

impl GeoKeys {
    /// GeoKeys with an empty directory and no parameters.
    pub fn new() -> (keys: GeoKeys)
        ensures
            keys@.directory.len() == 0,
            keys@.doubles.len() == 0,
            keys@.ascii.len() == 0,
    {
        GeoKeys {
            geo_key_directory: Vec::new(),
            geo_double_params: Vec::new(),
            geo_ascii_params: Vec::new(),
        }
    }

    /// The directory: a header of four numbers, then four numbers to a key.
    pub fn key_directory(&self) -> (v: &Vec<u16>)
        ensures
            v@ == self@.directory,
    {
        &self.geo_key_directory
    }

    /// The double parameters, each as the 64 bits of an IEEE 754 number.
    pub fn double_params(&self) -> (v: &Vec<u64>)
        ensures
            v@ == self@.doubles,
    {
        &self.geo_double_params
    }

    /// The ASCII parameters, as UTF-8.
    pub fn ascii_params(&self) -> (v: &Vec<u8>)
        ensures
            v@ == self@.ascii,
    {
        &self.geo_ascii_params
    }

    /// Appends to the directory the numbers that `data` holds, two bytes
    /// each.
    pub fn add_key_directory(&mut self, data: &Vec<u8>, byte_order: Endianness)
        requires
            data@.len() % 2 == 0,
        ensures
            final(self)@.directory == old(self)@.directory + u16s_of(data@, byte_order),
            final(self)@.doubles == old(self)@.doubles,
            final(self)@.ascii == old(self)@.ascii,
    {
        let n = data.len() / 2;
        let mut i: usize = 0;
        while i < n
            invariant
                i <= n,
                n == data.len() / 2,
                self@.directory == old(self)@.directory + u16s_of(data@, byte_order).subrange(
                    0,
                    i as int,
                ),
                self@.doubles == old(self)@.doubles,
                self@.ascii == old(self)@.ascii,
            decreases n - i,
        {
            let k = match byte_order {
                Endianness::LittleEndian => read_u16(data.as_slice(), 2 * i),
                Endianness::BigEndian => read_u16_be(data.as_slice(), 2 * i),
            };
            self.geo_key_directory.push(k);
            i += 1;
            assert(self@.directory =~= old(self)@.directory + u16s_of(data@, byte_order).subrange(
                0,
                i as int,
            ));
        }
        assert(u16s_of(data@, byte_order).subrange(0, n as int) =~= u16s_of(data@, byte_order));
    }

    /// Appends to the double parameters the 64-bit patterns that `data`
    /// holds, eight bytes each.
    pub fn add_double_params(&mut self, data: &Vec<u8>, byte_order: Endianness)
        requires
            data@.len() % 8 == 0,
        ensures
            final(self)@.doubles == old(self)@.doubles + u64s_of(data@, byte_order),
            final(self)@.directory == old(self)@.directory,
            final(self)@.ascii == old(self)@.ascii,
    {
        let n = data.len() / 8;
        let mut i: usize = 0;
        while i < n
            invariant
                i <= n,
                n == data.len() / 8,
                self@.doubles == old(self)@.doubles + u64s_of(data@, byte_order).subrange(
                    0,
                    i as int,
                ),
                self@.directory == old(self)@.directory,
                self@.ascii == old(self)@.ascii,
            decreases n - i,
        {
            let k = match byte_order {
                Endianness::LittleEndian => read_u64(data.as_slice(), 8 * i),
                Endianness::BigEndian => read_u64_be(data.as_slice(), 8 * i),
            };
            self.geo_double_params.push(k);
            i += 1;
            assert(self@.doubles =~= old(self)@.doubles + u64s_of(data@, byte_order).subrange(
                0,
                i as int,
            ));
        }
        assert(u64s_of(data@, byte_order).subrange(0, n as int) =~= u64s_of(data@, byte_order));
    }

    /// Sets the ASCII parameters to the text that `data` stands for,
    /// trimmed, as UTF-8.
    pub fn add_ascii_params(&mut self, data: &Vec<u8>)
        ensures
            final(self)@.ascii == ascii_params_of(data@),
            final(self)@.directory == old(self)@.directory,
            final(self)@.doubles == old(self)@.doubles,
    {
        let text = lossy_text(data.as_slice());
        let trimmed = trim_text(text.as_str());
        self.geo_ascii_params = trimmed.as_bytes_vec();
    }

    /// Whether the directory holds its header and every key that the header
    /// declares.
    pub fn has_all_keys(&self) -> (ok: bool)
        ensures
            ok == self@.holds_keys(),
    {
        let len = self.geo_key_directory.len();
        len >= 4 && (len - 4) / 4 >= self.geo_key_directory[3] as usize
    }

    /// Whether the directory holds its keys and the values of each lie
    /// within the field that it points into.
    pub fn is_well_formed(&self) -> (ok: bool)
        ensures
            ok == self@.well_formed(),
    {
        let len = self.geo_key_directory.len();
        if len < 4 {
            return false;
        }
        let n = self.geo_key_directory[3] as usize;
        if (len - 4) / 4 < n {
            return false;
        }
        let mut i: usize = 0;
        while i < n
            invariant
                i <= n,
                n == self@.number_of_keys(),
                self@.holds_keys(),
                len == self.geo_key_directory.len(),
                forall|j: int| 0 <= j < i ==> #[trigger] self@.values_in_reach(j),
            decreases n - i,
        {
            if !self.values_in_reach(i) {
                return false;
            }
            i += 1;
        }
        true
    }

    /// Whether the values of key `i` lie within the field that it points
    /// into.
    fn values_in_reach(&self, i: usize) -> (ok: bool)
        requires
            4 * (i + 1) + 3 < self.geo_key_directory.len(),
        ensures
            ok == self@.values_in_reach(i as int),
    {
        let offset = 4 * (i + 1);
        let location = self.geo_key_directory[offset + 1];
        let from = self.geo_key_directory[offset + 3] as usize;
        let to = from + self.geo_key_directory[offset + 2] as usize;
        if location == ASCII_PARAMS_TAG {
            to <= 0xFFFF && to <= self.geo_ascii_params.len() && self.is_text_boundary(from)
                && self.is_text_boundary(to)
        } else if location == DOUBLE_PARAMS_TAG {
            to <= 0xFFFF && to <= self.geo_double_params.len()
        } else {
            true
        }
    }

    /// Whether a character of the ASCII parameters starts at `at`, or the
    /// parameters end there.
    fn is_text_boundary(&self, at: usize) -> (ok: bool)
        ensures
            ok == is_text_boundary(self@.ascii, at as int),
    {
        let len = self.geo_ascii_params.len();
        if at == 0 || at == len {
            true
        } else if at > len {
            false
        } else {
            let byte = self.geo_ascii_params[at];
            !(0x80 <= byte && byte < 0xC0)
        }
    }

    /// The keys as directory entries, by code. Of two keys with one code the
    /// later one stays.
    pub fn get_ifd_map(&self, byte_order: Endianness) -> (map: HashMap<u16, Ifd>)
        requires
            self@.well_formed(),
        ensures
            forall|key: u16| #[trigger]
                map@.contains_key(key) <==> self@.last_with_id(key, self@.number_of_keys()) >= 0,
            forall|key: u16| #[trigger]
                map@.contains_key(key) ==> self@.is_ifd_of(
                    map@[key],
                    self@.last_with_id(key, self@.number_of_keys()),
                    byte_order,
                ),
    {
        broadcast use vstd::std_specs::hash::group_hash_axioms;

        let number_of_keys = self.geo_key_directory[3] as usize;
        let mut ifd_map: HashMap<u16, Ifd> = HashMap::new();
        let mut i: usize = 0;
        while i < number_of_keys
            invariant
                i <= number_of_keys,
                number_of_keys == self@.number_of_keys(),
                self@.well_formed(),
                forall|key: u16| #[trigger]
                    ifd_map@.contains_key(key) <==> self@.last_with_id(key, i as int) >= 0,
                forall|key: u16| #[trigger]
                    ifd_map@.contains_key(key) ==> self@.is_ifd_of(
                        ifd_map@[key],
                        self@.last_with_id(key, i as int),
                        byte_order,
                    ),
            decreases number_of_keys - i,
        {
            assert(self@.values_in_reach(i as int));
            let offset = 4 * (i + 1);
            let key_id = self.geo_key_directory[offset];
            let tiff_tag_location = self.geo_key_directory[offset + 1];
            let count = self.geo_key_directory[offset + 2];
            let value_offset = self.geo_key_directory[offset + 3];
            let from = value_offset as usize;
            let to = from + count as usize;
            let mut field_type: u16 = 0;
            let mut data: Vec<u8> = Vec::new();
            if tiff_tag_location == ASCII_PARAMS_TAG {
                field_type = 2;
                data = strip_bars(self.geo_ascii_params.as_slice(), from, to);
            } else if tiff_tag_location == DOUBLE_PARAMS_TAG {
                field_type = 12;
                data = doubles_bytes(self.geo_double_params.as_slice(), from, to);
            } else if tiff_tag_location == 0 {
                field_type = 3;
                push_u16(&mut data, value_offset);
                assert(data@ =~= u16_bytes(value_offset));
            }
            let ifd = Ifd::new(
                key_id,
                field_type,
                count as u64,
                value_offset as u64,
                data,
                byte_order,
            );
            assert(self@.is_ifd_of(ifd, i as int, byte_order));
            ifd_map.insert(key_id, ifd);
            i += 1;
        }
        ifd_map
    }

    /// The EPSG code of the coordinate system: the value of the last key
    /// that names one, geographic or projected; 0 where no key does or the
    /// directory is empty.
    pub fn find_epsg_code(&self) -> (code: u16)
        requires
            self@.directory.len() == 0 || self@.holds_keys(),
        ensures
            self@.directory.len() == 0 ==> code == 0,
            self@.directory.len() > 0 ==> code == self@.epsg_code(self@.number_of_keys()),
    {
        broadcast use vstd::std_specs::hash::group_hash_axioms;

        if self.geo_key_directory.len() == 0 {
            return 0u16;
        }
        let keys = get_keys_map();
        let number_of_keys = self.geo_key_directory[3] as usize;
        let mut epsg_code = 0u16;
        let mut i: usize = 0;
        while i < number_of_keys
            invariant
                i <= number_of_keys,
                number_of_keys == self@.number_of_keys(),
                self@.holds_keys(),
                holds_tags(keys@, |code: u16| tag_name(code)),
                epsg_code == self@.epsg_code(i as int),
            decreases number_of_keys - i,
        {
            let offset = 4 * (i + 1);
            let key_id = self.geo_key_directory[offset];
            let code = match keys.get(&key_id) {
                Some(key) => key.code,
                None => 0,
            };
            assert(keys@.contains_key(key_id) <==> tag_name(key_id) is Some);
            assert(tag_name(PROJECTED_CS_TYPE_KEY) is Some);
            assert(tag_name(GEOGRAPHIC_TYPE_KEY) is Some);
            if code == PROJECTED_CS_TYPE_KEY || code == GEOGRAPHIC_TYPE_KEY {
                epsg_code = self.geo_key_directory[offset + 3];
            }
            i += 1;
        }
        epsg_code
    }

    /// Whether a report can be made of the keys: see `reportable`.
    pub fn is_reportable(&self) -> (ok: bool)
        ensures
            ok == self@.reportable(),
    {
        let len = self.geo_key_directory.len();
        if len == 0 {
            return true;
        }
        if len < 4 {
            return false;
        }
        let n = self.reported_keys();
        let mut i: usize = 0;
        while i < n
            invariant
                i <= n,
                n == self@.reported_keys(),
                len == self.geo_key_directory.len(),
                len >= 4,
                4 * (n + 1) + 3 < len || n == 0,
                forall|j: int| 0 <= j < i ==> #[trigger] self@.value_reportable(j),
            decreases n - i,
        {
            let offset = 4 * (i + 1);
            if !self.values_in_reach(i) {
                assert(!self@.value_reportable(i as int));
                return false;
            }
            if self.geo_key_directory[offset + 1] == DOUBLE_PARAMS_TAG
                && self.geo_key_directory[offset + 2] == 0 {
                assert(!self@.value_reportable(i as int));
                return false;
            }
            i += 1;
        }
        true
    }

    /// The number of keys that a report speaks of.
    fn reported_keys(&self) -> (n: usize)
        requires
            self@.directory.len() >= 4,
        ensures
            n == self@.reported_keys(),
            4 * (n + 1) + 3 < self.geo_key_directory.len() || n == 0,
    {
        let limit = (self.geo_key_directory.len() - 4) / 16;
        let declared = self.geo_key_directory[3] as usize;
        if declared <= limit {
            declared
        } else {
            limit
        }
    }

    /// What the directory says, key by key; `None` where it is empty.
    pub fn interpret_geokeys(&self) -> (report: Option<GeoKeyReport>)
        requires
            self@.reportable(),
        ensures
            report is None <==> self@.directory.len() == 0,
            report matches Some(r) ==> {
                &&& r.version == self@.directory[0]
                &&& r.revision == self@.directory[1]
                &&& r.minor_revision == self@.directory[2]
                &&& r.keys@.len() == self@.reported_keys()
                &&& forall|i: int|
                    0 <= i < r.keys@.len() ==> self@.is_report_of(#[trigger] r.keys@[i], i)
            },
    {
        broadcast use vstd::std_specs::hash::group_hash_axioms;

        if self.geo_key_directory.len() == 0 {
            return None;
        }
        let keys = get_keys_map();
        let keyword_map = get_keyword_map();
        let n = self.reported_keys();
        let mut reports: Vec<KeyReport> = Vec::new();
        let mut i: usize = 0;
        while i < n
            invariant
                i <= n,
                n == self@.reported_keys(),
                self@.reportable(),
                self@.directory.len() >= 4,
                4 * (n + 1) + 3 < self.geo_key_directory.len() || n == 0,
                holds_tags(keys@, |code: u16| tag_name(code)),
                forall|key: u16| #[trigger]
                    keyword_map@.contains_key(key) <==> has_keyword_table(key),
                forall|key: u16, value: u16|
                    keyword_map@.contains_key(key) ==> (
                    #[trigger] keyword_map@[key]@.contains_key(value) <==> keyword_name(
                        key,
                        value,
                    ) is Some),
                forall|key: u16, value: u16|
                    keyword_map@.contains_key(key) && #[trigger] keyword_map@[key]@.contains_key(
                        value,
                    ) ==> keyword_map@[key]@[value]@ == keyword_name(key, value).unwrap(),
                reports@.len() == i,
                forall|j: int| 0 <= j < i ==> self@.is_report_of(#[trigger] reports@[j], j),
            decreases n - i,
        {
            assert(self@.value_reportable(i as int));
            let offset = 4 * (i + 1);
            let key_id = self.geo_key_directory[offset];
            let tiff_tag_location = self.geo_key_directory[offset + 1];
            let count = self.geo_key_directory[offset + 2];
            let value_offset = self.geo_key_directory[offset + 3];
            let from = value_offset as usize;
            let to = from + count as usize;
            let key = match keys.get(&key_id) {
                Some(key) => TiffTag { name: key.name.clone(), code: key.code },
                None => TiffTag::new_unknown_tag(),
            };
            assert(keys@.contains_key(key_id) <==> tag_name(key_id) is Some);
            assert(key.code == self@.known_code(i as int));
            assert(key.name@ == self@.known_name(i as int));
            let value = if tiff_tag_location == ASCII_PARAMS_TAG {
                KeyValue::Ascii(strip_bars(self.geo_ascii_params.as_slice(), from, to))
            } else if tiff_tag_location == DOUBLE_PARAMS_TAG {
                KeyValue::Doubles(copy_doubles(self.geo_double_params.as_slice(), from, to))
            } else if tiff_tag_location == 0 {
                match keyword_map.get(&key.code) {
                    Some(names) => {
                        assert(keyword_map@[key.code]@.contains_key(value_offset) <==> keyword_name(
                            key.code,
                            value_offset,
                        ) is Some);
                        match names.get(&value_offset) {
                            Some(name) => KeyValue::Keyword {
                                name: Some(*name),
                                value: value_offset,
                            },
                            None => KeyValue::Keyword { name: None, value: value_offset },
                        }
                    },
                    None => KeyValue::Plain(value_offset),
                }
            } else {
                KeyValue::UnknownLocation
            };
            assert(self@.is_value_of(value, i as int));
            reports.push(KeyReport { name: key.name, code: key.code, value });
            i += 1;
        }
        Some(
            GeoKeyReport {
                version: self.geo_key_directory[0],
                revision: self.geo_key_directory[1],
                minor_revision: self.geo_key_directory[2],
                keys: reports,
            },
        )
    }
}

} // verus!
