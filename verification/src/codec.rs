//! The compressed point stream: the records of a file in chunks, each chunk
//! the codes of its records one after the other and decodable by itself,
//! and the chunk table that says how many records and bytes each chunk has.

use vstd::prelude::*;
use vstd::slice::slice_subrange;
use crate::bytes::copy_range;
use crate::codec_laws::{lemma_chunk_holding, lemma_decode_records_stays_none};
use crate::error::LasError;
use crate::layout::{field_widths, lemma_widths_fill_record, total_width, widths_ok, widths_of};
use crate::point::{
    lemma_record_bytes_len, record_at, record_bytes, record_len, record_length, PointRecord,
    MAX_FORMAT,
};
use crate::record_codec::{decode_fields, decode_record, encode_record, record_codes};

verus! {

/// One entry of the chunk table: the number of records of a chunk and the
/// number of bytes of its codes.
#[derive(Clone, Copy, Debug, PartialEq, Eq, Structural)]
pub struct ChunkEntry {
    pub point_count: u64,
    pub byte_length: u64,
}

/// `len` zero bytes: what stands for the records before the first of a
/// chunk.
pub open spec fn blank(len: int) -> Seq<u8> {
    Seq::new(len as nat, |i: int| 0u8)
}

/// The bytes of the record before record `i` of a chunk.
pub open spec fn last_of(images: Seq<Seq<u8>>, i: int, len: int) -> Seq<u8> {
    if i <= 0 {
        blank(len)
    } else {
        images[i - 1]
    }
}

/// The bytes of the record two before record `i` of a chunk; for the second
/// record, those of the first.
pub open spec fn before_of(images: Seq<Seq<u8>>, i: int, len: int) -> Seq<u8> {
    if i <= 0 {
        blank(len)
    } else if i == 1 {
        images[0]
    } else {
        images[i - 2]
    }
}

/// The codes of the first `k` records of a chunk.
pub open spec fn chunk_codes(widths: Seq<u8>, images: Seq<Seq<u8>>, k: int) -> Seq<u8>
    decreases k,
{
    if k <= 0 {
        Seq::empty()
    } else {
        let len = total_width(widths);
        chunk_codes(widths, images, k - 1) + record_codes(
            widths,
            last_of(images, k - 1, len),
            before_of(images, k - 1, len),
            images[k - 1],
            widths.len() as int,
        )
    }
}

/// The bytes of the `k` records whose codes stand at `at` in `s`, and the
/// place after the codes; `None` where the codes of one of them cannot be
/// decoded.
pub open spec fn decode_records(widths: Seq<u8>, s: Seq<u8>, at: int, k: int) -> Option<
    (Seq<Seq<u8>>, int),
>
    decreases k,
{
    if k <= 0 {
        Some((Seq::empty(), at))
    } else {
        match decode_records(widths, s, at, k - 1) {
            None => None,
            Some((images, pos)) => {
                let len = total_width(widths);
                match decode_fields(
                    widths,
                    last_of(images, k - 1, len),
                    before_of(images, k - 1, len),
                    s,
                    pos,
                    widths.len() as int,
                ) {
                    None => None,
                    Some((image, next)) => Some((images.push(image), next)),
                }
            },
        }
    }
}

/// The bytes of the records of a chunk, which are `count` and whose codes
/// are all of `chunk`; `None` where the codes end before `count` records
/// are decoded, or go on after them.
pub open spec fn chunk_images(widths: Seq<u8>, chunk: Seq<u8>, count: int) -> Option<
    Seq<Seq<u8>>,
> {
    match decode_records(widths, chunk, 0, count) {
        Some((images, pos)) => if pos == chunk.len() {
            Some(images)
        } else {
            None
        },
        None => None,
    }
}

/// The number of records of the first chunk of `n` records: `chunk_size`,
/// or what is left; with a chunk size of 0 all of them.
pub open spec fn first_chunk_len(n: int, chunk_size: int) -> int {
    if chunk_size <= 0 || n <= chunk_size {
        n
    } else {
        chunk_size
    }
}

/// The stream and the chunk table of the records with the given bytes.
#[verifier::opaque]
pub open spec fn pack(widths: Seq<u8>, images: Seq<Seq<u8>>, chunk_size: int) -> (
    Seq<u8>,
    Seq<ChunkEntry>,
)
    decreases images.len(),
{
    if images.len() == 0 {
        (Seq::empty(), Seq::empty())
    } else {
        let n = first_chunk_len(images.len() as int, chunk_size);
        let codes = chunk_codes(widths, images.subrange(0, n), n);
        let rest = pack(widths, images.subrange(n, images.len() as int), chunk_size);
        (
            codes + rest.0,
            seq![ChunkEntry { point_count: n as u64, byte_length: codes.len() as u64 }] + rest.1,
        )
    }
}

/// The bytes of the records of the chunks of `table`, whose codes stand one
/// after the other from `at` on in `s`; or the place in `s` where the first
/// chunk starts that cannot be decoded.
#[verifier::opaque]
pub open spec fn unpack(widths: Seq<u8>, s: Seq<u8>, at: int, table: Seq<ChunkEntry>) -> Result<
    Seq<Seq<u8>>,
    int,
>
    decreases table.len(),
{
    if table.len() == 0 {
        Ok(Seq::empty())
    } else {
        let end = at + table[0].byte_length;
        if end > s.len() {
            Err(at)
        } else {
            match chunk_images(widths, s.subrange(at, end), table[0].point_count as int) {
                None => Err(at),
                Some(images) => match unpack(widths, s, end, table.drop_first()) {
                    Ok(rest) => Ok(images + rest),
                    Err(place) => Err(place),
                },
            }
        }
    }
}

/// Where chunk `k` starts in the stream: the sum of the byte lengths of the
/// chunks before it.
pub open spec fn byte_start(table: Seq<ChunkEntry>, k: int) -> int
    decreases k,
{
    if k <= 0 {
        0
    } else {
        byte_start(table, k - 1) + table[k - 1].byte_length
    }
}

/// The number of the first record of chunk `k`: the sum of the point counts
/// of the chunks before it.
pub open spec fn point_start(table: Seq<ChunkEntry>, k: int) -> int
    decreases k,
{
    if k <= 0 {
        0
    } else {
        point_start(table, k - 1) + table[k - 1].point_count
    }
}

/// The bytes of each record.
pub open spec fn images_of(records: Seq<PointRecord>) -> Seq<Seq<u8>> {
    Seq::new(records.len(), |i: int| record_bytes(records[i]))
}

/// The records of the given format that the byte strings hold.
pub open spec fn records_of(format: u8, images: Seq<Seq<u8>>) -> Seq<PointRecord> {
    Seq::new(images.len(), |i: int| record_at(format, images[i]))
}

/// Every record has the given format.
pub open spec fn share_format(records: Seq<PointRecord>, format: u8) -> bool {
    forall|i: int| 0 <= i < records.len() ==> (#[trigger] records[i]).format_code() == format
}

/// The stream and the chunk table of records of the given format.
pub open spec fn compressed(records: Seq<PointRecord>, format: u8, chunk_size: int) -> (
    Seq<u8>,
    Seq<ChunkEntry>,
) {
    pack(field_widths(format), images_of(records), chunk_size)
}

/// The records of the given format that a stream holds by its chunk table,
/// or the error of the first chunk that cannot be decoded.
pub open spec fn decompressed(s: Seq<u8>, table: Seq<ChunkEntry>, format: u8) -> Result<
    Seq<PointRecord>,
    LasError,
> {
    match unpack(field_widths(format), s, 0, table) {
        Ok(images) => Ok(records_of(format, images)),
        Err(place) => Err(LasError::CorruptChunk { offset: place as u64 }),
    }
}

/// What an error says of the place `place` in a stream.
pub open spec fn place_of(place: int) -> u64 {
    if place > u64::MAX {
        u64::MAX
    } else {
        place as u64
    }
}

/// The records of chunk `k` alone, decoded from the place where the table
/// says that it starts; or the error of that chunk.
pub open spec fn chunk_decompressed(
    s: Seq<u8>,
    table: Seq<ChunkEntry>,
    k: int,
    format: u8,
) -> Result<Seq<PointRecord>, LasError> {
    let start = byte_start(table, k);
    let end = start + table[k].byte_length;
    if end > s.len() {
        Err(LasError::CorruptChunk { offset: place_of(start) })
    } else {
        match chunk_images(
            field_widths(format),
            s.subrange(start, end),
            table[k].point_count as int,
        ) {
            Some(images) => Ok(records_of(format, images)),
            None => Err(LasError::CorruptChunk { offset: place_of(start) }),
        }
    }
}

/// Every byte string has `len` bytes.
pub open spec fn all_of_len(images: Seq<Seq<u8>>, len: int) -> bool {
    forall|i: int| 0 <= i < images.len() ==> (#[trigger] images[i]).len() == len
}

/// The stream has a chunk table entry for each chunk, and the entries'
/// byte lengths add up to the stream's length.
pub open spec fn fits_u64(widths: Seq<u8>, images: Seq<Seq<u8>>, chunk_size: int) -> bool {
    images.len() <= u64::MAX && pack(widths, images, chunk_size).0.len() <= u64::MAX
}

/// The format of the first record; 0 where there is none.
pub open spec fn format_of(records: Seq<PointRecord>) -> u8 {
    if records.len() > 0 {
        records[0].format_code()
    } else {
        0
    }
}

/// Where a record lies in a compressed stream: the chunk that holds it,
/// the place where that chunk starts in the stream, and the number of
/// records of the chunk that come before it.
#[derive(Clone, Copy, Debug, PartialEq, Eq, Structural)]
pub struct ChunkPlace {
    pub chunk: usize,
    pub byte_offset: u64,
    pub skip: u64,
}

/// The first chunk from `k` on that ends after record `index`; the number
/// of chunks where none does.
pub open spec fn chunk_holding(table: Seq<ChunkEntry>, index: int, k: int) -> int
    decreases table.len() - k,
{
    if k >= table.len() || index < point_start(table, k + 1) {
        k
    } else {
        chunk_holding(table, index, k + 1)
    }
}

/// `len` zero bytes.
fn blank_image(len: usize) -> (v: Vec<u8>)
    ensures
        v@ == blank(len as int),
{
    let mut v: Vec<u8> = Vec::new();
    let mut i: usize = 0;
    while i < len
        invariant
            i <= len,
            v@ == blank(i as int),
        decreases len - i,
    {
        v.push(0);
        i += 1;
        assert(v@ =~= blank(i as int));
    }
    v
}

/// Appends the codes of the chunk of the `n` records from `from` on.
fn encode_chunk(
    widths: &Vec<u8>,
    format: u8,
    records: &Vec<PointRecord>,
    from: usize,
    n: usize,
    out: &mut Vec<u8>,
)
    requires
        format <= MAX_FORMAT,
        widths@ == field_widths(format),
        share_format(records@, format),
        from + n <= records@.len(),
    ensures
        final(out)@ == old(out)@ + chunk_codes(
            widths@,
            images_of(records@).subrange(from as int, from + n),
            n as int,
        ),
{
    proof {
        lemma_widths_fill_record(format);
    }
    let len = record_len(format);
    let ghost head = images_of(records@).subrange(from as int, from + n);
    let mut last = blank_image(len);
    let mut before = blank_image(len);
    let mut k: usize = 0;
    while k < n
        invariant
            k <= n,
            from + n <= records@.len(),
            from + n <= records.len(),
            format <= MAX_FORMAT,
            widths_ok(widths@),
            total_width(widths@) == len,
            len == record_length(format),
            share_format(records@, format),
            head == images_of(records@).subrange(from as int, from + n),
            last@ == last_of(head, k as int, len as int),
            before@ == before_of(head, k as int, len as int),
            last@.len() == len,
            before@.len() == len,
            out@ == old(out)@ + chunk_codes(widths@, head, k as int),
        decreases n - k,
    {
        let image = records[from + k].to_bytes();
        proof {
            lemma_record_bytes_len(records@[from + k]);
            assert(records@[from + k].format_code() == format);
            assert(head[k as int] == image@);
            assert(image@.len() == len);
        }
        encode_record(widths, last.as_slice(), before.as_slice(), image.as_slice(), out);
        assert(out@ =~= old(out)@ + chunk_codes(widths@, head, k + 1));
        if k == 0 {
            before = copy_range(image.as_slice(), 0, len);
            assert(before@ =~= image@);
        } else {
            before = last;
        }
        last = image;
        k += 1;
    }
}

/// Compresses records of one format: the stream of their codes, in chunks
/// of `chunk_size` records, the last chunk with what is left, and the chunk
/// table. A chunk size of 0 puts all records into one chunk.
pub fn compress(records: &Vec<PointRecord>, chunk_size: usize) -> (r: (Vec<u8>, Vec<ChunkEntry>))
    requires
        share_format(records@, format_of(records@)),
    ensures
        r.0@ == compressed(records@, format_of(records@), chunk_size as int).0,
        r.1@ == compressed(records@, format_of(records@), chunk_size as int).1,
{
    reveal(pack);
    let mut out: Vec<u8> = Vec::new();
    let mut table: Vec<ChunkEntry> = Vec::new();
    let total = records.len();
    if total == 0 {
        assert(images_of(records@) =~= Seq::<Seq<u8>>::empty());
        return (out, table);
    }
    let format = records[0].format();
    let widths = widths_of(format);
    let ghost images = images_of(records@);
    let ghost whole = pack(widths@, images, chunk_size as int);
    let mut i: usize = 0;
    assert(images.subrange(0, total as int) =~= images);
    while i < total
        invariant
            i <= total,
            total == records.len(),
            format <= MAX_FORMAT,
            format == format_of(records@),
            widths@ == field_widths(format),
            share_format(records@, format),
            images == images_of(records@),
            whole == pack(widths@, images, chunk_size as int),
            whole.0 == out@ + pack(
                widths@,
                images.subrange(i as int, total as int),
                chunk_size as int,
            ).0,
            whole.1 == table@ + pack(
                widths@,
                images.subrange(i as int, total as int),
                chunk_size as int,
            ).1,
        decreases total - i,
    {
        let left = total - i;
        let n = if chunk_size == 0 || left <= chunk_size {
            left
        } else {
            chunk_size
        };
        let start = out.len();
        let ghost before_out = out@;
        let ghost before_table = table@;
        let ghost remaining = images.subrange(i as int, total as int);
        reveal(pack);
        encode_chunk(&widths, format, records, i, n, &mut out);
        let entry = ChunkEntry {
            point_count: n as u64,
            byte_length: (out.len() - start) as u64,
        };
        table.push(entry);
        proof {
            let codes = chunk_codes(widths@, images.subrange(i as int, i + n), n as int);
            assert(remaining.subrange(0, n as int) =~= images.subrange(i as int, i + n));
            assert(remaining.subrange(n as int, remaining.len() as int) =~= images.subrange(
                i + n,
                total as int,
            ));
            let rest = pack(widths@, images.subrange(i + n, total as int), chunk_size as int);
            assert(n == first_chunk_len(remaining.len() as int, chunk_size as int));
            assert(out@.len() - start == codes.len());
            assert(pack(widths@, remaining, chunk_size as int).0 == codes + rest.0);
            assert(pack(widths@, remaining, chunk_size as int).1 == seq![entry] + rest.1);
            assert(whole.0 =~= out@ + rest.0);
            assert(whole.1 =~= table@ + rest.1);
        }
        i += n;
    }
    proof {
        assert(images.subrange(total as int, total as int) =~= Seq::<Seq<u8>>::empty());
        assert(whole.0 =~= out@);
        assert(whole.1 =~= table@);
    }
    (out, table)
}

/// Decodes the records of a chunk, which are `count` and whose codes are
/// all of `chunk`.
fn decode_chunk_records(widths: &Vec<u8>, format: u8, chunk: &[u8], count: u64) -> (r: Option<
    Vec<PointRecord>,
>)
    requires
        format <= MAX_FORMAT,
        widths@ == field_widths(format),
    ensures
        match chunk_images(widths@, chunk@, count as int) {
            Some(images) => r matches Some(records) && records@ == records_of(format, images),
            None => r is None,
        },
{
    proof {
        lemma_widths_fill_record(format);
    }
    let len = record_len(format);
    let mut records: Vec<PointRecord> = Vec::new();
    let mut last = blank_image(len);
    let mut before = blank_image(len);
    let mut pos: usize = 0;
    let mut k: u64 = 0;
    let ghost mut images: Seq<Seq<u8>> = Seq::empty();
    assert(records@ =~= records_of(format, images));
    while k < count
        invariant
            k <= count,
            format <= MAX_FORMAT,
            widths_ok(widths@),
            widths@.len() >= 3,
            total_width(widths@) == len,
            len == record_length(format),
            pos <= chunk.len(),
            images.len() == k,
            decode_records(widths@, chunk@, 0, k as int) == Some((images, pos as int)),
            records@ == records_of(format, images),
            last@ == last_of(images, k as int, len as int),
            before@ == before_of(images, k as int, len as int),
            last@.len() == len,
            before@.len() == len,
        decreases count - k,
    {
        match decode_record(widths, last.as_slice(), before.as_slice(), chunk, pos) {
            None => {
                proof {
                    assert(decode_records(widths@, chunk@, 0, k + 1) is None);
                    lemma_decode_records_stays_none(widths@, chunk@, 0, k + 1, count as int);
                }
                return None;
            },
            Some((image, next)) => {
                let record = match PointRecord::decode(format, image.as_slice()) {
                    Ok(record) => record,
                    Err(_) => {
                        assert(false);
                        return None;
                    },
                };
                let ghost done = images;
                proof {
                    images = images.push(image@);
                    assert(decode_records(widths@, chunk@, 0, k + 1) == Some(
                        (images, next as int),
                    ));
                }
                records.push(record);
                assert(records@ =~= records_of(format, images));
                if k == 0 {
                    before = copy_range(image.as_slice(), 0, len);
                    assert(before@ =~= image@);
                } else {
                    before = last;
                }
                last = image;
                pos = next;
                k += 1;
            },
        }
    }
    if pos == chunk.len() {
        Some(records)
    } else {
        None
    }
}

/// Decompresses a stream by its chunk table into records of the given
/// format. Fails with `UnsupportedFormat` for a format above 10, and with
/// `CorruptChunk` and the place where the chunk starts in the stream for
/// the first chunk that goes beyond the stream, whose codes end before its
/// records are decoded or go on after them, or that holds a code too large
/// for its field.
pub fn decompress(stream: &[u8], table: &Vec<ChunkEntry>, format_code: u8) -> (r: Result<
    Vec<PointRecord>,
    LasError,
>)
    ensures
        format_code > MAX_FORMAT ==> (r matches Err(e) && e == LasError::UnsupportedFormat),
        format_code <= MAX_FORMAT ==> match decompressed(stream@, table@, format_code) {
            Ok(records) => r matches Ok(v) && v@ == records,
            Err(error) => r matches Err(e) && e == error,
        },
{
    reveal(unpack);
    if format_code > MAX_FORMAT {
        return Err(LasError::UnsupportedFormat);
    }
    let widths = widths_of(format_code);
    let mut records: Vec<PointRecord> = Vec::new();
    let mut at: usize = 0;
    let mut i: usize = 0;
    let ghost whole = unpack(widths@, stream@, 0, table@);
    let ghost mut images: Seq<Seq<u8>> = Seq::empty();
    assert(table@.subrange(0, table@.len() as int) =~= table@);
    assert(records@ =~= records_of(format_code, images));
    while i < table.len()
        invariant
            i <= table.len(),
            at <= stream.len(),
            format_code <= MAX_FORMAT,
            widths@ == field_widths(format_code),
            whole == unpack(widths@, stream@, 0, table@),
            whole == match unpack(
                widths@,
                stream@,
                at as int,
                table@.subrange(i as int, table@.len() as int),
            ) {
                Ok(rest) => Ok::<Seq<Seq<u8>>, int>(images + rest),
                Err(place) => Err::<Seq<Seq<u8>>, int>(place),
            },
            records@ == records_of(format_code, images),
        decreases table.len() - i,
    {
        let entry = table[i];
        reveal(unpack);
        let ghost left = table@.subrange(i as int, table@.len() as int);
        assert(left[0] == entry);
        assert(left.drop_first() =~= table@.subrange(i + 1, table@.len() as int));
        if entry.byte_length > (stream.len() - at) as u64 {
            return Err(LasError::CorruptChunk { offset: at as u64 });
        }
        let end = at + entry.byte_length as usize;
        let chunk = slice_subrange(stream, at, end);
        match decode_chunk_records(&widths, format_code, chunk, entry.point_count) {
            None => {
                return Err(LasError::CorruptChunk { offset: at as u64 });
            },
            Some(mut more) => {
                proof {
                    let found = chunk_images(widths@, chunk@, entry.point_count as int).unwrap();
                    let ghost done = images;
                    images = images + found;
                    assert(records_of(format_code, done) + records_of(format_code, found)
                        =~= records_of(format_code, images));
                    match unpack(widths@, stream@, end as int, left.drop_first()) {
                        Ok(rest) => {
                            assert(done + (found + rest) =~= images + rest);
                        },
                        Err(_) => {},
                    }
                }
                records.append(&mut more);
                at = end;
                i += 1;
            },
        }
    }
    proof {
        assert(table@.subrange(table@.len() as int, table@.len() as int) =~= Seq::<
            ChunkEntry,
        >::empty());
        assert(images + Seq::<Seq<u8>>::empty() =~= images);
    }
    Ok(records)
}

/// Finds the chunk that holds record `index`; `None` where the record
/// lies after the last chunk.
pub fn locate_point(table: &Vec<ChunkEntry>, index: u64) -> (r: Option<ChunkPlace>)
    ensures
        match r {
            Some(place) => {
                &&& place.chunk == chunk_holding(table@, index as int, 0)
                &&& place.chunk < table@.len()
                &&& place.byte_offset == place_of(byte_start(table@, place.chunk as int))
                &&& place.skip == index - point_start(table@, place.chunk as int)
                &&& place.skip < table@[place.chunk as int].point_count
            },
            None => chunk_holding(table@, index as int, 0) == table@.len() && point_start(
                table@,
                table@.len() as int,
            ) <= index,
        },
{
    let mut k: usize = 0;
    let mut points: u128 = 0;
    let mut bytes: u128 = 0;
    proof {
        lemma_chunk_holding(table@, index as int, 0);
    }
    while k < table.len()
        invariant
            k <= table.len(),
            points == point_start(table@, k as int),
            bytes == byte_start(table@, k as int),
            points <= k * 0xFFFF_FFFF_FFFF_FFFF,
            bytes <= k * 0xFFFF_FFFF_FFFF_FFFF,
            points <= index,
            chunk_holding(table@, index as int, 0) == chunk_holding(table@, index as int, k as int),
        decreases table.len() - k,
    {
        let entry = table[k];
        if (index as u128) < points + entry.point_count as u128 {
            let byte_offset = if bytes > u64::MAX as u128 {
                u64::MAX
            } else {
                bytes as u64
            };
            let skip = (index as u128 - points) as u64;
            return Some(ChunkPlace { chunk: k, byte_offset, skip });
        }
        points = points + entry.point_count as u128;
        bytes = bytes + entry.byte_length as u128;
        k += 1;
    }
    None
}

/// The number of bytes of the stream that come before chunk `k`.
fn start_of_chunk(table: &Vec<ChunkEntry>, k: usize) -> (bytes: u128)
    requires
        k <= table@.len(),
    ensures
        bytes == byte_start(table@, k as int),
{
    let mut j: usize = 0;
    let mut bytes: u128 = 0;
    while j < k
        invariant
            j <= k <= table.len(),
            bytes == byte_start(table@, j as int),
            bytes <= j * 0xFFFF_FFFF_FFFF_FFFF,
        decreases k - j,
    {
        bytes = bytes + table[j].byte_length as u128;
        j += 1;
    }
    bytes
}

/// Decompresses chunk `k` alone, from the place where the table says that
/// it starts. Fails with `UnsupportedFormat` for a format above 10, and
/// with `CorruptChunk` and the place where the chunk starts where the chunk
/// goes beyond the stream or does not decode to the records that the table
/// declares.
pub fn decode_chunk(stream: &[u8], table: &Vec<ChunkEntry>, k: usize, format_code: u8) -> (r:
    Result<Vec<PointRecord>, LasError>)
    requires
        k < table@.len(),
    ensures
        format_code > MAX_FORMAT ==> (r matches Err(e) && e == LasError::UnsupportedFormat),
        format_code <= MAX_FORMAT ==> match chunk_decompressed(
            stream@,
            table@,
            k as int,
            format_code,
        ) {
            Ok(records) => r matches Ok(v) && v@ == records,
            Err(error) => r matches Err(e) && e == error,
        },
{
    if format_code > MAX_FORMAT {
        return Err(LasError::UnsupportedFormat);
    }
    let start = start_of_chunk(table, k);
    let entry = table[k];
    let offset = if start > u64::MAX as u128 {
        u64::MAX
    } else {
        start as u64
    };
    if start > stream.len() as u128 || entry.byte_length as u128 > stream.len() as u128 - start {
        return Err(LasError::CorruptChunk { offset });
    }
    let from = start as usize;
    let chunk = slice_subrange(stream, from, from + entry.byte_length as usize);
    let widths = widths_of(format_code);
    match decode_chunk_records(&widths, format_code, chunk, entry.point_count) {
        Some(records) => Ok(records),
        None => Err(LasError::CorruptChunk { offset }),
    }
}

} // verus!
