//! The ways in which reading a point cloud can fail.

use vstd::prelude::*;

verus! {

/// Why a file, or a part of it, could not be read.
#[derive(Clone, Copy, Debug, PartialEq, Eq, Structural)]
pub enum LasError {
    /// The signature is missing, the version is not supported, or the
    /// header's offsets do not fit the file.
    MalformedHeader,
    /// A variable length record declares more bytes than the file has left,
    /// or its payload ends within one of the numbers that it holds.
    TruncatedVlr,
    /// Fewer bytes were given than a point record of the format has.
    TruncatedRecord,
    /// The point record format is none of 0 to 10.
    UnsupportedFormat,
    /// The field asked for is not part of the record's format.
    FieldNotAvailable,
    /// A chunk of a compressed point stream does not decode to the points
    /// that the chunk table declares. `offset` is where the chunk starts in
    /// the stream.
    CorruptChunk { offset: u64 },
}

} // verus!
