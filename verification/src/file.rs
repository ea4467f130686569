//! A point-cloud file as a whole: its header, its variable length records
//! and its points, which are decoded when they are asked for.

use vstd::prelude::*;
use vstd::slice::slice_subrange;
use crate::bytes::{read_u64, u64_at};
use crate::codec::{
    byte_start, chunk_decompressed, chunk_holding, decode_chunk, locate_point, point_start,
    ChunkEntry,
};
use crate::codec_laws::{
    lemma_chunk_holding, lemma_chunk_len, lemma_chunk_of_point, lemma_starts_grow,
};
use crate::error::LasError;
use crate::header::{header_at, starts_with_header, Header, HeaderView};
use crate::point::{record_at, record_len, record_length, PointRecord, MAX_FORMAT};
use crate::vlr::{views_of, vlr_chain, Vlr, VlrView};

verus! {

/// What a file holds: its header, its variable length records, its bytes,
/// and the chunk table of its points where these are compressed.
pub struct FileView {
    pub header: HeaderView,
    pub vlrs: Seq<VlrView>,
    pub data: Seq<u8>,
    pub table: Seq<ChunkEntry>,
}

/// The number of entries of the chunk table, which the last 8 bytes of a
/// compressed file hold.
pub open spec fn table_len_at(data: Seq<u8>) -> int {
    u64_at(data, data.len() - 8) as int
}

/// Where the chunk table of a compressed file starts: 16 bytes to an entry
/// before the last 8 bytes.
pub open spec fn table_base(data: Seq<u8>) -> int {
    data.len() - 8 - 16 * table_len_at(data)
}

/// The chunk table entry stored at `at`: the number of records, then the
/// number of bytes.
pub open spec fn entry_at(data: Seq<u8>, at: int) -> ChunkEntry {
    ChunkEntry { point_count: u64_at(data, at), byte_length: u64_at(data, at + 8) }
}

/// The chunk table at the end of a compressed file.
pub open spec fn chunk_table_at(data: Seq<u8>) -> Seq<ChunkEntry> {
    Seq::new(table_len_at(data) as nat, |i: int| entry_at(data, table_base(data) + 16 * i))
}

/// The chunks of the table hold `count` records in `stream_len` bytes, and
/// none has more records than bytes.
pub open spec fn table_consistent(table: Seq<ChunkEntry>, count: int, stream_len: int) -> bool {
    &&& point_start(table, table.len() as int) == count
    &&& byte_start(table, table.len() as int) == stream_len
    &&& forall|i: int|
        0 <= i < table.len() ==> (#[trigger] table[i]).point_count <= table[i].byte_length
}

/// Whether a compressed file with the header `h` ends with a chunk table
/// that lies after the start of the points and fits the points that the
/// header declares and the bytes between their start and the table.
pub open spec fn has_chunk_table(data: Seq<u8>, h: HeaderView) -> bool {
    &&& h.offset_to_point_data + 8 <= data.len()
    &&& h.offset_to_point_data <= table_base(data)
    &&& table_consistent(
        chunk_table_at(data),
        h.point_count() as int,
        table_base(data) - h.offset_to_point_data,
    )
}

/// The compressed stream of a file: the bytes between the start of the
/// points and the chunk table.
pub open spec fn stream_of(data: Seq<u8>, h: HeaderView) -> Seq<u8> {
    data.subrange(h.offset_to_point_data as int, table_base(data))
}

/// What opening the file with the bytes `data` gives: the file, or the
/// error of the first part that cannot be read, in the order header, point
/// format, variable length records, chunk table.
#[verifier::opaque]
pub open spec fn opened(data: Seq<u8>) -> Result<FileView, LasError> {
    let h = header_at(data);
    if !starts_with_header(data) {
        Err(LasError::MalformedHeader)
    } else if h.point_format > MAX_FORMAT {
        Err(LasError::UnsupportedFormat)
    } else if h.point_record_length < record_length(h.point_format) {
        Err(LasError::MalformedHeader)
    } else {
        match vlr_chain(data, h.vlr_count as nat, h.header_size as int) {
            None => Err(LasError::TruncatedVlr),
            Some(vlrs) => if !h.compressed {
                Ok(FileView { header: h, vlrs, data, table: Seq::empty() })
            } else if !has_chunk_table(data, h) {
                Err(LasError::MalformedHeader)
            } else {
                Ok(FileView { header: h, vlrs, data, table: chunk_table_at(data) })
            },
        }
    }
}

/// What asking a file for point `index` gives. A point that the header does
/// not declare is answered with `TruncatedRecord`. In a file that is not
/// compressed the point's record stands `index` record lengths after the
/// start of the points. In a compressed file it is one of the records of
/// the chunk that holds it, decoded from the start of that chunk; where the
/// chunk cannot be decoded, its error is the answer.
pub open spec fn point_at(f: FileView, index: int) -> Result<PointRecord, LasError> {
    let h = f.header;
    if index >= h.point_count() {
        Err(LasError::TruncatedRecord)
    } else if !h.compressed {
        let at = h.offset_to_point_data + index * h.point_record_length;
        Ok(record_at(h.point_format, f.data.subrange(at, at + h.point_record_length)))
    } else {
        let k = chunk_holding(f.table, index, 0);
        match chunk_decompressed(stream_of(f.data, h), f.table, k, h.point_format) {
            Ok(records) => Ok(records[index - point_start(f.table, k)]),
            Err(e) => Err(e),
        }
    }
}

/// What holds of a file that was opened.
pub proof fn lemma_opened(data: Seq<u8>, f: FileView)
    requires
        opened(data) == Ok::<FileView, LasError>(f),
    ensures
        f.data == data,
        f.header.fits(data.len() as int),
        f.header.point_format <= MAX_FORMAT,
        f.header.point_record_length >= record_length(f.header.point_format),
        vlr_chain(data, f.header.vlr_count as nat, f.header.header_size as int) == Some(f.vlrs),
        f.header.compressed ==> has_chunk_table(data, f.header) && f.table == chunk_table_at(data),
        !f.header.compressed ==> f.table == Seq::<ChunkEntry>::empty(),
{
    reveal(opened);
}

/// Reads the chunk table at the end of a compressed file.
fn read_chunk_table(data: &[u8], header: &Header) -> (r: Option<Vec<ChunkEntry>>)
    requires
        header.offset_to_point_data <= data.len(),
    ensures
        has_chunk_table(data@, header@) ==> (r matches Some(table) && table@ == chunk_table_at(
            data@,
        )),
        !has_chunk_table(data@, header@) ==> r is None,
{
    let len = data.len();
    let start = header.offset_to_point_data as usize;
    if len - start < 8 {
        return None;
    }
    let n = read_u64(data, len - 8);
    let room = len - 8 - start;
    if n > (room / 16) as u64 {
        return None;
    }
    let n = n as usize;
    let base = len - 8 - 16 * n;
    let mut table: Vec<ChunkEntry> = Vec::new();
    let mut points: u128 = 0;
    let mut bytes: u128 = 0;
    let mut i: usize = 0;
    let ghost whole = chunk_table_at(data@);
    while i < n
        invariant
            i <= n,
            n == table_len_at(data@),
            base == table_base(data@),
            base + 16 * n + 8 == data.len(),
            whole == chunk_table_at(data@),
            table@ == whole.subrange(0, i as int),
            points == point_start(whole, i as int),
            bytes == byte_start(whole, i as int),
            points <= i * 0xFFFF_FFFF_FFFF_FFFF,
            bytes <= i * 0xFFFF_FFFF_FFFF_FFFF,
            forall|j: int| 0 <= j < i ==> (#[trigger] whole[j]).point_count <= whole[j].byte_length,
        decreases n - i,
    {
        let at = base + 16 * i;
        let entry = ChunkEntry {
            point_count: read_u64(data, at),
            byte_length: read_u64(data, at + 8),
        };
        assert(entry == whole[i as int]);
        if entry.point_count > entry.byte_length {
            return None;
        }
        table.push(entry);
        assert(table@ =~= whole.subrange(0, i + 1));
        points = points + entry.point_count as u128;
        bytes = bytes + entry.byte_length as u128;
        i += 1;
    }
    assert(table@ =~= whole);
    if points != header.point_count() as u128 || bytes != (base - start) as u128 {
        return None;
    }
    Some(table)
}

/// A point-cloud file.
#[derive(Debug)]
pub struct LasFile {
    header: Header,
    vlrs: Vec<Vlr>,
    data: Vec<u8>,
    chunk_table: Vec<ChunkEntry>,
}

impl View for LasFile {
    type V = FileView;

    closed spec fn view(&self) -> FileView {
        FileView {
            header: self.header@,
            vlrs: views_of(self.vlrs@),
            data: self.data@,
            table: self.chunk_table@,
        }
    }
}

impl LasFile {
    #[verifier::type_invariant]
    spec fn inv(self) -> bool {
        opened(self.data@) == Ok::<FileView, LasError>(self@)
    }

    /// Opens the file with the bytes `data`: reads its header, its variable
    /// length records and, where the points are compressed, its chunk
    /// table. No point is decoded.
    pub fn open(data: Vec<u8>) -> (r: Result<LasFile, LasError>)
        ensures
            match opened(data@) {
                Ok(file) => r matches Ok(f) && f@ == file,
                Err(error) => r matches Err(e) && e == error,
            },
    {
        reveal(opened);
        let header = match Header::parse(data.as_slice()) {
            Ok(header) => header,
            Err(e) => {
                return Err(e);
            },
        };
        if header.point_format > MAX_FORMAT {
            return Err(LasError::UnsupportedFormat);
        }
        if (header.point_record_length as usize) < record_len(header.point_format) {
            return Err(LasError::MalformedHeader);
        }
        let vlrs = match Vlr::parse_all(
            data.as_slice(),
            header.vlr_count,
            header.header_size as usize,
        ) {
            Ok(vlrs) => vlrs,
            Err(e) => {
                return Err(e);
            },
        };
        let chunk_table = if header.compressed {
            match read_chunk_table(data.as_slice(), &header) {
                Some(table) => table,
                None => {
                    return Err(LasError::MalformedHeader);
                },
            }
        } else {
            Vec::new()
        };
        assert(chunk_table@ =~= opened(data@)->Ok_0.table);
        Ok(LasFile { header, vlrs, data, chunk_table })
    }

    /// The header.
    pub fn header(&self) -> (h: &Header)
        ensures
            h@ == self@.header,
    {
        &self.header
    }

    /// The variable length records, in the order of the file.
    pub fn vlrs(&self) -> (v: &Vec<Vlr>)
        ensures
            views_of(v@) == self@.vlrs,
    {
        &self.vlrs
    }

    /// The chunk table; empty where the points are not compressed.
    pub fn chunk_table(&self) -> (t: &Vec<ChunkEntry>)
        ensures
            t@ == self@.table,
    {
        &self.chunk_table
    }

    /// The number of points that the header declares.
    pub fn point_count(&self) -> (n: u64)
        ensures
            n == self@.header.point_count(),
    {
        self.header.point_count()
    }

    /// The compressed stream of the file.
    fn stream(&self) -> (s: &[u8])
        requires
            self@.header.compressed,
        ensures
            s@ == stream_of(self@.data, self@.header),
    {
        proof {
            use_type_invariant(self);
            lemma_opened(self.data@, self@);
        }
        let len = self.data.len();
        let end = len - 8 - 16 * self.chunk_table.len();
        slice_subrange(self.data.as_slice(), self.header.offset_to_point_data as usize, end)
    }

    /// Point `index` of a file that is not compressed.
    fn stored_point(&self, index: u64) -> (r: Result<PointRecord, LasError>)
        requires
            !self@.header.compressed,
            index < self@.header.point_count(),
        ensures
            r == point_at(self@, index as int),
    {
        proof {
            use_type_invariant(self);
            lemma_opened(self.data@, self@);
        }
        let length = self.header.point_record_length as usize;
        let start = self.header.offset_to_point_data as usize;
        let len = self.data.len();
        proof {
            let count = self@.header.point_count() as int;
            let l = length as int;
            let i = index as int;
            assert(self@.header.fits(self.data@.len() as int));
            assert(start + l * count <= len);
            assert(i * l + l <= l * count && i <= i * l && 0 <= i * l) by (nonlinear_arith)
                requires
                    0 <= i < count,
                    1 <= l,
            ;
            assert(index as usize == i);
            assert((index as usize) * length == i * l);
        }
        let at = start + index as usize * length;
        let bytes = slice_subrange(self.data.as_slice(), at, at + length);
        PointRecord::decode(self.header.point_format, bytes)
    }

    /// Point `index` of a compressed file.
    fn packed_point(&self, index: u64) -> (r: Result<PointRecord, LasError>)
        requires
            self@.header.compressed,
            index < self@.header.point_count(),
        ensures
            r == point_at(self@, index as int),
    {
        let stream = self.stream();
        let format = self.header.point_format;
        proof {
            use_type_invariant(self);
            lemma_opened(self.data@, self@);
            lemma_chunk_holding(self.chunk_table@, index as int, 0);
            assert(point_start(self.chunk_table@, 0) == 0);
        }
        match locate_point(&self.chunk_table, index) {
            None => {
                assert(false);
                Err(LasError::TruncatedRecord)
            },
            Some(place) => match decode_chunk(stream, &self.chunk_table, place.chunk, format) {
                Ok(records) => {
                    proof {
                        lemma_chunk_len(stream@, self.chunk_table@, place.chunk as int, format);
                    }
                    Ok(records[place.skip as usize])
                },
                Err(e) => Err(e),
            },
        }
    }

    /// Appends what asking for each point of chunk `k` gives.
    fn push_chunk_points(&self, k: usize, out: &mut Vec<Result<PointRecord, LasError>>)
        requires
            self@.header.compressed,
            k < self@.table.len(),
            old(out)@.len() == point_start(self@.table, k as int),
            forall|i: int| 0 <= i < old(out)@.len() ==> old(out)@[i] == point_at(self@, i),
        ensures
            final(out)@.len() == point_start(self@.table, k + 1),
            forall|i: int| 0 <= i < final(out)@.len() ==> final(out)@[i] == point_at(self@, i),
    {
        let stream = self.stream();
        let format = self.header.point_format;
        let ghost first = point_start(self@.table, k as int);
        let ghost table = self.chunk_table@;
        proof {
            use_type_invariant(self);
            lemma_opened(self.data@, self@);
            lemma_chunk_len(stream@, table, k as int, format);
            lemma_starts_grow(table, k + 1, table.len() as int);
            lemma_starts_grow(table, 0, k as int);
            assert(point_start(table, 0) == 0);
            assert forall|i: int| first <= i < first + table[k as int].point_count implies point_at(
                self@,
                i,
            ) == (match chunk_decompressed(stream@, table, k as int, format) {
                Ok(records) => Ok::<PointRecord, LasError>(records[i - first]),
                Err(e) => Err::<PointRecord, LasError>(e),
            }) by {
                lemma_chunk_of_point(table, k as int, i, 0);
            }
        }
        let count = self.chunk_table[k].point_count;
        match decode_chunk(stream, &self.chunk_table, k, format) {
            Ok(records) => {
                let mut j: usize = 0;
                while j < records.len()
                    invariant
                        j <= records.len(),
                        records@.len() == count,
                        0 <= first,
                        out@.len() == first + j,
                        forall|i: int| 0 <= i < first ==> out@[i] == point_at(self@, i),
                        forall|i: int|
                            first <= i < first + j ==> out@[i] == Ok::<PointRecord, LasError>(
                                records@[i - first],
                            ),
                    decreases records.len() - j,
                {
                    out.push(Ok(records[j]));
                    j += 1;
                }
            },
            Err(e) => {
                let mut j: u64 = 0;
                while j < count
                    invariant
                        j <= count,
                        0 <= first,
                        out@.len() == first + j,
                        forall|i: int| 0 <= i < first ==> out@[i] == point_at(self@, i),
                        forall|i: int|
                            first <= i < first + j ==> out@[i] == Err::<PointRecord, LasError>(e),
                    decreases count - j,
                {
                    out.push(Err(e));
                    j += 1;
                }
            },
        }
    }

    /// What asking for each point gives, in the order of the file: each
    /// point's record, or, in a compressed file, for the points of a chunk
    /// that cannot be decoded the error of that chunk.
    pub fn iter_points(&self) -> (points: Vec<Result<PointRecord, LasError>>)
        ensures
            points@.len() == self@.header.point_count(),
            forall|i: int| 0 <= i < points@.len() ==> points@[i] == point_at(self@, i),
    {
        let mut points: Vec<Result<PointRecord, LasError>> = Vec::new();
        if self.header.compressed {
            proof {
                use_type_invariant(self);
                lemma_opened(self.data@, self@);
                assert(point_start(self@.table, 0) == 0);
            }
            let mut k: usize = 0;
            while k < self.chunk_table.len()
                invariant
                    k <= self.chunk_table.len(),
                    self@.header.compressed,
                    self@.table == self.chunk_table@,
                    points@.len() == point_start(self@.table, k as int),
                    forall|i: int| 0 <= i < points@.len() ==> points@[i] == point_at(self@, i),
                decreases self.chunk_table.len() - k,
            {
                self.push_chunk_points(k, &mut points);
                k += 1;
            }
        } else {
            let count = self.header.point_count();
            let mut i: u64 = 0;
            while i < count
                invariant
                    i <= count,
                    count == self@.header.point_count(),
                    !self@.header.compressed,
                    points@.len() == i,
                    forall|j: int| 0 <= j < points@.len() ==> points@[j] == point_at(self@, j),
                decreases count - i,
            {
                let point = self.stored_point(i);
                points.push(point);
                i += 1;
            }
        }
        points
    }

    /// Point `index` of the file.
    pub fn get_point(&self, index: u64) -> (r: Result<PointRecord, LasError>)
        ensures
            r == point_at(self@, index as int),
    {
        if index >= self.header.point_count() {
            Err(LasError::TruncatedRecord)
        } else if self.header.compressed {
            self.packed_point(index)
        } else {
            self.stored_point(index)
        }
    }
}

} // verus!
