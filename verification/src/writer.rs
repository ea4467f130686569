//! Writing a point-cloud file: the bytes of a header, of variable length
//! records and of points, compressed or not, such that opening them gives
//! all of these back.

use vstd::prelude::*;
use crate::bytes::{lemma_u64_at, push_u64, u64_bytes};
use crate::codec::{compress, compressed, fits_u64, images_of, pack, share_format, ChunkEntry};
use crate::codec_laws::{lemma_pack_table, lemma_point_of_compressed};
use crate::error::LasError;
use crate::file::{
    chunk_table_at, has_chunk_table, opened, point_at, stream_of, table_base, table_len_at,
    FileView,
};
use crate::header::{
    header_at, lemma_parse_of_serialized, lemma_part_lengths, starts_with_header, Header,
    HeaderView,
};
use crate::layout::{field_widths, lemma_widths_fill_record};
use crate::point::{
    lemma_read_of_written, lemma_record_bytes_len, record_bytes, record_len, record_length,
    PointRecord, MAX_FORMAT,
};
use crate::vlr::{lemma_chain_of_bytes, views_of, vlr_chain, vlr_chain_bytes, Vlr, VlrView};

verus! {

/// The number of records of a chunk of a file that is written compressed.
pub const DEFAULT_CHUNK_SIZE: usize = 50_000;

/// The bytes of the first `k` records, one after the other.
pub open spec fn records_bytes(records: Seq<PointRecord>, k: int) -> Seq<u8>
    decreases k,
{
    if k <= 0 {
        Seq::empty()
    } else {
        records_bytes(records, k - 1) + record_bytes(records[k - 1])
    }
}

/// The bytes of the first `k` entries of a chunk table: for each the number
/// of records, then the number of bytes.
pub open spec fn table_bytes(table: Seq<ChunkEntry>, k: int) -> Seq<u8>
    decreases k,
{
    if k <= 0 {
        Seq::empty()
    } else {
        table_bytes(table, k - 1) + u64_bytes(table[k - 1].point_count) + u64_bytes(
            table[k - 1].byte_length,
        )
    }
}

/// The bytes of the points of a file: the records one after the other, or
/// their compressed stream, its chunk table and the number of the table's
/// entries.
pub open spec fn points_bytes(records: Seq<PointRecord>, format: u8, compress: bool) -> Seq<u8> {
    if compress {
        let packed = compressed(records, format, DEFAULT_CHUNK_SIZE as int);
        packed.0 + table_bytes(packed.1, packed.1.len() as int) + u64_bytes(packed.1.len() as u64)
    } else {
        records_bytes(records, records.len() as int)
    }
}

/// The header fits what is written with it: it says whether the points are
/// compressed, counts the variable length records and the points, lets the
/// points start after the last variable length record, and its record
/// length is that of its format, which is the format of every record.
pub open spec fn header_fits(
    h: HeaderView,
    vlrs: Seq<VlrView>,
    records: Seq<PointRecord>,
    compress: bool,
) -> bool {
    &&& h.compressed == compress
    &&& h.vlr_count == vlrs.len()
    &&& h.offset_to_point_data == h.header_size + vlr_chain_bytes(vlrs).len()
    &&& h.point_record_length == record_length(h.point_format)
    &&& h.point_count() == records.len()
    &&& share_format(records, h.point_format)
}

/// What writing a file gives: its bytes, or `MalformedHeader` where the
/// header is none that a file can have or does not fit what is written
/// with it, or `UnsupportedFormat` where its point format is above 10.
pub open spec fn written(
    h: HeaderView,
    vlrs: Seq<VlrView>,
    records: Seq<PointRecord>,
    compress: bool,
) -> Result<Seq<u8>, LasError> {
    if !h.wf() {
        Err(LasError::MalformedHeader)
    } else if h.point_format > MAX_FORMAT {
        Err(LasError::UnsupportedFormat)
    } else if !header_fits(h, vlrs, records, compress) {
        Err(LasError::MalformedHeader)
    } else {
        Ok(h.bytes() + vlr_chain_bytes(vlrs) + points_bytes(records, h.point_format, compress))
    }
}

/// Whether every record has the given format.
fn all_of_format(records: &Vec<PointRecord>, format: u8) -> (b: bool)
    ensures
        b == share_format(records@, format),
{
    let mut i: usize = 0;
    while i < records.len()
        invariant
            i <= records.len(),
            forall|j: int| 0 <= j < i ==> (#[trigger] records@[j]).format_code() == format,
        decreases records.len() - i,
    {
        if records[i].format() != format {
            return false;
        }
        i += 1;
    }
    true
}

/// The number of bytes of the records, one after the other.
fn chain_len(vlrs: &Vec<Vlr>) -> (n: u128)
    ensures
        n == vlr_chain_bytes(views_of(vlrs@)).len(),
        n <= vlrs@.len() * 0x1_0040,
{
    let mut n: u128 = 0;
    let mut i: usize = 0;
    assert(views_of(vlrs@).subrange(0, 0) =~= Seq::empty());
    while i < vlrs.len()
        invariant
            i <= vlrs.len(),
            n == vlr_chain_bytes(views_of(vlrs@).subrange(0, i as int)).len(),
            n <= i * 0x1_0040,
        decreases vlrs.len() - i,
    {
        let len = vlrs[i].byte_len();
        proof {
            let next = views_of(vlrs@).subrange(0, i + 1);
            assert(next.drop_last() =~= views_of(vlrs@).subrange(0, i as int));
            assert(next.last() == vlrs@[i as int]@);
        }
        n = n + len as u128;
        i += 1;
    }
    assert(views_of(vlrs@).subrange(0, vlrs@.len() as int) =~= views_of(vlrs@));
    n
}

/// Appends the bytes of the records, one after the other.
fn push_records(records: &Vec<PointRecord>, out: &mut Vec<u8>)
    ensures
        final(out)@ == old(out)@ + records_bytes(records@, records@.len() as int),
{
    let mut i: usize = 0;
    while i < records.len()
        invariant
            i <= records.len(),
            out@ == old(out)@ + records_bytes(records@, i as int),
        decreases records.len() - i,
    {
        records[i].encode(out);
        i += 1;
        assert(out@ =~= old(out)@ + records_bytes(records@, i as int));
    }
}

/// Appends the bytes of a chunk table.
fn push_table(table: &Vec<ChunkEntry>, out: &mut Vec<u8>)
    ensures
        final(out)@ == old(out)@ + table_bytes(table@, table@.len() as int),
{
    let mut i: usize = 0;
    while i < table.len()
        invariant
            i <= table.len(),
            out@ == old(out)@ + table_bytes(table@, i as int),
        decreases table.len() - i,
    {
        push_u64(out, table[i].point_count);
        push_u64(out, table[i].byte_length);
        i += 1;
        assert(out@ =~= old(out)@ + table_bytes(table@, i as int));
    }
}

/// The bytes of a file with the given header, variable length records and
/// points, the points compressed in chunks of `DEFAULT_CHUNK_SIZE` records
/// where `compressed` says so. Fails with `MalformedHeader` where the
/// header is none that a file can have or does not fit what is written
/// with it, and with `UnsupportedFormat` where its point format is above
/// 10.
pub fn write(header: &Header, vlrs: &Vec<Vlr>, records: &Vec<PointRecord>, compressed: bool) -> (r:
    Result<Vec<u8>, LasError>)
    ensures
        match written(header@, views_of(vlrs@), records@, compressed) {
            Ok(bytes) => r matches Ok(v) && v@ == bytes,
            Err(error) => r matches Err(e) && e == error,
        },
{
    if !header.is_valid() {
        return Err(LasError::MalformedHeader);
    }
    if header.point_format > MAX_FORMAT {
        return Err(LasError::UnsupportedFormat);
    }
    if header.compressed != compressed || header.vlr_count as u128 != vlrs.len() as u128
        || header.offset_to_point_data as u128 != header.header_size as u128 + chain_len(vlrs)
        || header.point_record_length as usize != record_len(header.point_format)
        || header.point_count() as u128 != records.len() as u128 || !all_of_format(
        records,
        header.point_format,
    ) {
        return Err(LasError::MalformedHeader);
    }
    let mut out: Vec<u8> = Vec::new();
    match header.write(&mut out) {
        Ok(()) => {},
        Err(e) => {
            return Err(e);
        },
    }
    Vlr::write_all(vlrs, &mut out);
    if compressed {
        proof {
            if records@.len() == 0 {
                reveal(pack);
                assert(images_of(records@) =~= Seq::<Seq<u8>>::empty());
            }
        }
        let packed = compress(records, DEFAULT_CHUNK_SIZE);
        let mut stream = packed.0;
        out.append(&mut stream);
        push_table(&packed.1, &mut out);
        push_u64(&mut out, packed.1.len() as u64);
    } else {
        push_records(records, &mut out);
    }
    assert(out@ =~= header@.bytes() + vlr_chain_bytes(views_of(vlrs@)) + points_bytes(
        records@,
        header.point_format,
        compressed,
    ));
    Ok(out)
}

/// The bytes of records of one format are as many as the records times the
/// format's record length.
pub proof fn lemma_records_bytes_len(records: Seq<PointRecord>, format: u8, k: int)
    requires
        share_format(records, format),
        0 <= k <= records.len(),
    ensures
        records_bytes(records, k).len() == k * record_length(format),
    decreases k,
{
    let len = record_length(format) as int;
    if k > 0 {
        lemma_records_bytes_len(records, format, k - 1);
        lemma_record_bytes_len(records[k - 1]);
        assert(k * len == (k - 1) * len + len) by (nonlinear_arith);
    } else {
        assert(0 * len == 0) by (nonlinear_arith);
    }
}

/// Record `i` stands `i` record lengths after the start of the bytes of
/// the records.
pub proof fn lemma_record_in_bytes(records: Seq<PointRecord>, format: u8, k: int, i: int)
    requires
        share_format(records, format),
        0 <= i < k <= records.len(),
    ensures
        ({
            let len = record_length(format) as int;
            &&& 0 <= i * len
            &&& i * len + len <= records_bytes(records, k).len()
            &&& records_bytes(records, k).subrange(i * len, i * len + len) == record_bytes(
                records[i],
            )
        }),
    decreases k,
{
    let len = record_length(format) as int;
    let all = records_bytes(records, k);
    let head = records_bytes(records, k - 1);
    lemma_records_bytes_len(records, format, k);
    lemma_records_bytes_len(records, format, k - 1);
    lemma_record_bytes_len(records[k - 1]);
    assert(0 <= i * len && i * len + len <= (k - 1) * len + len && (i < k - 1 ==> i * len + len
        <= (k - 1) * len)) by (nonlinear_arith)
        requires
            0 <= i <= k - 1,
            0 <= len,
    ;
    if i == k - 1 {
        assert(all.subrange(i * len, i * len + len) =~= record_bytes(records[k - 1]));
    } else {
        lemma_record_in_bytes(records, format, k - 1, i);
        assert(all.subrange(i * len, i * len + len) =~= head.subrange(i * len, i * len + len));
    }
}

/// The bytes of a chunk table are 16 to an entry.
pub proof fn lemma_table_bytes_len(table: Seq<ChunkEntry>, k: int)
    requires
        0 <= k,
    ensures
        table_bytes(table, k).len() == 16 * k,
    decreases k,
{
    if k > 0 {
        lemma_table_bytes_len(table, k - 1);
        assert(u64_bytes(table[k - 1].point_count).len() == 8);
        assert(u64_bytes(table[k - 1].byte_length).len() == 8);
    }
}

/// Entry `i` stands 16 `i` bytes after the start of the bytes of a chunk
/// table.
pub proof fn lemma_entry_in_bytes(table: Seq<ChunkEntry>, k: int, i: int)
    requires
        0 <= i < k,
    ensures
        table_bytes(table, k).len() == 16 * k,
        table_bytes(table, k).subrange(16 * i, 16 * i + 8) == u64_bytes(table[i].point_count),
        table_bytes(table, k).subrange(16 * i + 8, 16 * i + 16) == u64_bytes(
            table[i].byte_length,
        ),
    decreases k,
{
    let all = table_bytes(table, k);
    let head = table_bytes(table, k - 1);
    lemma_table_bytes_len(table, k);
    lemma_table_bytes_len(table, k - 1);
    assert(u64_bytes(table[k - 1].point_count).len() == 8);
    assert(u64_bytes(table[k - 1].byte_length).len() == 8);
    if i == k - 1 {
        assert(all.subrange(16 * i, 16 * i + 8) =~= u64_bytes(table[i].point_count));
        assert(all.subrange(16 * i + 8, 16 * i + 16) =~= u64_bytes(table[i].byte_length));
    } else {
        lemma_entry_in_bytes(table, k - 1, i);
        assert(all.subrange(16 * i, 16 * i + 8) =~= head.subrange(16 * i, 16 * i + 8));
        assert(all.subrange(16 * i + 8, 16 * i + 16) =~= head.subrange(16 * i + 8, 16 * i + 16));
    }
}

/// The header and the variable length records are read back from a file
/// that starts with their bytes.
pub proof fn lemma_start_of_file(h: HeaderView, vlrs: Seq<VlrView>, points: Seq<u8>)
    requires
        h.wf(),
        h.vlr_count == vlrs.len(),
        h.offset_to_point_data == h.header_size + vlr_chain_bytes(vlrs).len(),
        forall|i: int| 0 <= i < vlrs.len() ==> (#[trigger] vlrs[i]).wf(),
        h.fits((h.bytes() + vlr_chain_bytes(vlrs) + points).len() as int),
    ensures
        ({
            let bytes = h.bytes() + vlr_chain_bytes(vlrs) + points;
            &&& bytes.len() == h.offset_to_point_data + points.len()
            &&& bytes.subrange(h.offset_to_point_data as int, bytes.len() as int) == points
            &&& starts_with_header(bytes)
            &&& header_at(bytes) == h
            &&& vlr_chain(bytes, h.vlr_count as nat, h.header_size as int) == Some(vlrs)
        }),
{
    let chain = vlr_chain_bytes(vlrs);
    let bytes = h.bytes() + chain + points;
    lemma_part_lengths(h);
    assert(bytes =~= h.bytes() + (chain + points));
    lemma_parse_of_serialized(h, chain + points);
    assert(bytes.subrange(h.header_size as int, h.header_size + chain.len()) =~= chain);
    lemma_chain_of_bytes(bytes, h.header_size as int, vlrs);
    assert(bytes.subrange(h.offset_to_point_data as int, bytes.len() as int) =~= points);
}

/// Opening a file that was written without compression gives the header
/// and the variable length records that were written, and asking it for a
/// point gives the record that was written for it.
pub proof fn lemma_open_of_written_plain(
    h: HeaderView,
    vlrs: Seq<VlrView>,
    records: Seq<PointRecord>,
)
    requires
        written(h, vlrs, records, false) is Ok,
        forall|i: int| 0 <= i < vlrs.len() ==> (#[trigger] vlrs[i]).wf(),
    ensures
        ({
            let bytes = written(h, vlrs, records, false)->Ok_0;
            let file = FileView { header: h, vlrs, data: bytes, table: Seq::empty() };
            &&& opened(bytes) == Ok::<FileView, LasError>(file)
            &&& forall|i: int|
                0 <= i < records.len() ==> #[trigger] point_at(file, i) == Ok::<
                    PointRecord,
                    LasError,
                >(records[i])
        }),
{
    reveal(opened);
    let format = h.point_format;
    let n = records.len() as int;
    let len = record_length(format) as int;
    let points = records_bytes(records, n);
    let bytes = h.bytes() + vlr_chain_bytes(vlrs) + points;
    let file = FileView { header: h, vlrs, data: bytes, table: Seq::empty() };
    let start = h.offset_to_point_data as int;
    lemma_records_bytes_len(records, format, n);
    lemma_part_lengths(h);
    assert(h.point_record_length * h.point_count() == n * len) by (nonlinear_arith)
        requires
            h.point_record_length == len,
            h.point_count() == n,
    ;
    lemma_start_of_file(h, vlrs, points);
    assert forall|i: int| 0 <= i < records.len() implies #[trigger] point_at(file, i) == Ok::<
        PointRecord,
        LasError,
    >(records[i]) by {
        lemma_record_in_bytes(records, format, n, i);
        assert(i * h.point_record_length == i * len) by (nonlinear_arith)
            requires
                h.point_record_length == len,
        ;
        let at = start + i * len;
        assert(bytes.subrange(at, at + len) =~= points.subrange(i * len, i * len + len));
        lemma_read_of_written(records[i], Seq::empty());
        assert(record_bytes(records[i]) + Seq::<u8>::empty() =~= record_bytes(records[i]));
    }
}

/// The chunk table is read back from the end of a file whose points are a
/// stream, the bytes of its chunk table and the number of the table's
/// entries.
pub proof fn lemma_table_of_file(
    bytes: Seq<u8>,
    start: int,
    stream: Seq<u8>,
    table: Seq<ChunkEntry>,
)
    requires
        0 <= start,
        table.len() <= u64::MAX,
        bytes.len() == start + stream.len() + 16 * table.len() + 8,
        bytes.subrange(start, bytes.len() as int) == stream + table_bytes(
            table,
            table.len() as int,
        ) + u64_bytes(table.len() as u64),
    ensures
        table_len_at(bytes) == table.len(),
        table_base(bytes) == start + stream.len(),
        chunk_table_at(bytes) == table,
        bytes.subrange(start, start + stream.len()) == stream,
{
    let n = table.len() as int;
    let tail = table_bytes(table, n);
    let points = bytes.subrange(start, bytes.len() as int);
    let end = bytes.len() as int;
    let base = start + stream.len();
    lemma_table_bytes_len(table, n);
    assert(u64_bytes(n as u64).len() == 8);
    assert(bytes.subrange(end - 8, end) =~= points.subrange(
        stream.len() + 16 * n,
        stream.len() + 16 * n + 8,
    ));
    assert(points.subrange(stream.len() + 16 * n, stream.len() + 16 * n + 8) =~= u64_bytes(
        n as u64,
    ));
    lemma_u64_at(bytes, end - 8, n as u64);
    assert forall|i: int| 0 <= i < n implies #[trigger] chunk_table_at(bytes)[i] == table[i] by {
        lemma_entry_in_bytes(table, n, i);
        let at = base + 16 * i;
        assert(bytes.subrange(at, at + 8) =~= points.subrange(
            stream.len() + 16 * i,
            stream.len() + 16 * i + 8,
        ));
        assert(points.subrange(stream.len() + 16 * i, stream.len() + 16 * i + 8)
            =~= tail.subrange(16 * i, 16 * i + 8));
        assert(bytes.subrange(at + 8, at + 16) =~= points.subrange(
            stream.len() + 16 * i + 8,
            stream.len() + 16 * i + 16,
        ));
        assert(points.subrange(stream.len() + 16 * i + 8, stream.len() + 16 * i + 16)
            =~= tail.subrange(16 * i + 8, 16 * i + 16));
        lemma_u64_at(bytes, at, table[i].point_count);
        lemma_u64_at(bytes, at + 8, table[i].byte_length);
    }
    assert(chunk_table_at(bytes) =~= table);
    assert(bytes.subrange(start, base) =~= points.subrange(0, stream.len() as int));
    assert(points.subrange(0, stream.len() as int) =~= stream);
}

/// Asking a compressed file for a point gives the record that was
/// compressed for it.
pub proof fn lemma_points_of_stream(file: FileView, records: Seq<PointRecord>, chunk_size: int)
    requires
        file.header.compressed,
        file.header.point_format <= MAX_FORMAT,
        file.header.point_count() == records.len(),
        share_format(records, file.header.point_format),
        fits_u64(field_widths(file.header.point_format), images_of(records), chunk_size),
        stream_of(file.data, file.header) == compressed(
            records,
            file.header.point_format,
            chunk_size,
        ).0,
        file.table == compressed(records, file.header.point_format, chunk_size).1,
    ensures
        forall|i: int|
            0 <= i < records.len() ==> #[trigger] point_at(file, i) == Ok::<PointRecord, LasError>(
                records[i],
            ),
{
    assert forall|i: int| 0 <= i < records.len() implies #[trigger] point_at(file, i) == Ok::<
        PointRecord,
        LasError,
    >(records[i]) by {
        lemma_point_of_compressed(records, file.header.point_format, chunk_size, i);
    }
}

/// Opening a file that was written compressed gives the header and the
/// variable length records that were written and the chunk table of the
/// stream, and asking it for a point gives the record that was written for
/// it.
pub proof fn lemma_open_of_written_packed(
    h: HeaderView,
    vlrs: Seq<VlrView>,
    records: Seq<PointRecord>,
)
    requires
        written(h, vlrs, records, true) is Ok,
        forall|i: int| 0 <= i < vlrs.len() ==> (#[trigger] vlrs[i]).wf(),
        fits_u64(field_widths(h.point_format), images_of(records), DEFAULT_CHUNK_SIZE as int),
    ensures
        ({
            let bytes = written(h, vlrs, records, true)->Ok_0;
            let table = compressed(records, h.point_format, DEFAULT_CHUNK_SIZE as int).1;
            let file = FileView { header: h, vlrs, data: bytes, table };
            &&& opened(bytes) == Ok::<FileView, LasError>(file)
            &&& forall|i: int|
                0 <= i < records.len() ==> #[trigger] point_at(file, i) == Ok::<
                    PointRecord,
                    LasError,
                >(records[i])
        }),
{
    let format = h.point_format;
    let widths = field_widths(format);
    let packed = compressed(records, format, DEFAULT_CHUNK_SIZE as int);
    let stream = packed.0;
    let table = packed.1;
    let n = table.len() as int;
    let points = stream + table_bytes(table, n) + u64_bytes(n as u64);
    let bytes = h.bytes() + vlr_chain_bytes(vlrs) + points;
    let file = FileView { header: h, vlrs, data: bytes, table };
    let start = h.offset_to_point_data as int;
    lemma_widths_fill_record(format);
    lemma_pack_table(widths, images_of(records), DEFAULT_CHUNK_SIZE as int);
    lemma_table_bytes_len(table, n);
    assert(u64_bytes(n as u64).len() == 8);
    lemma_part_lengths(h);
    lemma_start_of_file(h, vlrs, points);
    lemma_table_of_file(bytes, start, stream, table);
    assert(stream_of(bytes, h) == stream);
    assert(has_chunk_table(bytes, h));
    assert(opened(bytes) == Ok::<FileView, LasError>(file)) by {
        reveal(opened);
    }
    lemma_points_of_stream(file, records, DEFAULT_CHUNK_SIZE as int);
}

} // verus!
