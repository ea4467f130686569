//! TIFF tags: a numeric code and the name it is known by.

use vstd::prelude::*;
use vstd::string::*;
use crate::decimal::{decimal, decimal_text};

verus! {

/// A TIFF tag or GeoKey: its name and its numeric code.
#[derive(Clone, Debug)]
pub struct TiffTag {
    pub name: String,
    pub code: u16,
}

/// The name carried by the tag that stands for every unrecognised code.
pub open spec fn unknown_tag_name() -> Seq<char> {
    "Unknown"@
}

/// What a tag says of itself: its name and its code.
pub open spec fn tag_text(name: Seq<char>, code: u16) -> Seq<char> {
    "Name: "@ + name + ", Code: "@ + decimal(code as int)
}

impl TiffTag {
    /// The text `Name: ` and the name, then `, Code: ` and the code.
    pub fn to_text(&self) -> (text: String)
        ensures
            text@ == tag_text(self.name@, self.code),
    {
        let code = decimal_text(self.code as u64);
        String::from_str("Name: ").concat(self.name.as_str()).concat(", Code: ").concat(
            code.as_str(),
        )
    }

    /// Consumes the tag and hands out its name.
    pub fn get_name(self) -> (name: String)
        ensures
            name@ == self.name@,
    {
        self.name
    }

    /// The tag used for a code that no table lists: name "Unknown", code 0.
    pub fn new_unknown_tag() -> (tag: TiffTag)
        ensures
            tag.name@ == unknown_tag_name(),
            tag.code == 0,
    {
        TiffTag { name: String::from_str("Unknown"), code: 0 }
    }
}

impl Default for TiffTag {
    fn default() -> (tag: TiffTag)
        ensures
            tag.name@ == Seq::<char>::empty(),
            tag.code == 0,
    {
        TiffTag { name: String::new(), code: 0 }
    }
}

} // verus!
