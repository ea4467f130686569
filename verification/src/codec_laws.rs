//! What holds of the compressed point stream: that decompressing undoes
//! compressing, that every chunk decodes by itself to the records that it
//! has in the whole, and what the chunk table of a stream says.

use vstd::prelude::*;
use crate::codec::{
    ChunkEntry, all_of_len, before_of, byte_start, chunk_codes, chunk_decompressed,
    chunk_holding, chunk_images, compressed, decode_records, decompressed, first_chunk_len,
    fits_u64, images_of, last_of, pack, point_start, records_of, share_format, unpack,
};
use crate::error::LasError;
use crate::layout::{field_widths, lemma_widths_fill_record, total_width, widths_ok};
use crate::point::{
    lemma_read_of_written, lemma_record_bytes_len, record_at, record_bytes, PointRecord,
    MAX_FORMAT,
};
use crate::record_codec::{
    lemma_decode_fields_len, lemma_fields_of_codes, lemma_record_codes_len, record_codes,
};

verus! {

/// Once the records of a chunk cannot be decoded, more of them cannot.
pub proof fn lemma_decode_records_stays_none(widths: Seq<u8>, s: Seq<u8>, at: int, k: int, n: int)
    requires
        0 <= k <= n,
        decode_records(widths, s, at, k) is None,
    ensures
        decode_records(widths, s, at, n) is None,
    decreases n,
{
    if k < n {
        lemma_decode_records_stays_none(widths, s, at, k, n - 1);
    }
}

/// The decoded records are as many as were asked for, each has the bytes of
/// a record, and their codes lie within `s`.
pub proof fn lemma_decode_records_len(widths: Seq<u8>, s: Seq<u8>, at: int, k: int)
    requires
        widths_ok(widths),
        0 <= k,
        0 <= at <= s.len(),
    ensures
        decode_records(widths, s, at, k) matches Some((images, pos)) ==> images.len() == k
            && all_of_len(images, total_width(widths)) && at <= pos <= s.len(),
    decreases k,
{
    if k > 0 {
        lemma_decode_records_len(widths, s, at, k - 1);
        match decode_records(widths, s, at, k - 1) {
            None => {},
            Some((images, pos)) => {
                let len = total_width(widths);
                lemma_decode_fields_len(
                    widths,
                    last_of(images, k - 1, len),
                    before_of(images, k - 1, len),
                    s,
                    pos,
                    widths.len() as int,
                );
            },
        }
    }
}

/// The records of a chunk are read back from their codes, wherever these
/// stand in `s`.
pub proof fn lemma_records_of_codes(
    widths: Seq<u8>,
    images: Seq<Seq<u8>>,
    s: Seq<u8>,
    at: int,
    k: int,
)
    requires
        widths_ok(widths),
        0 <= k <= images.len(),
        all_of_len(images, total_width(widths)),
        0 <= at,
        at + chunk_codes(widths, images, k).len() <= s.len(),
        s.subrange(at, at + chunk_codes(widths, images, k).len()) == chunk_codes(
            widths,
            images,
            k,
        ),
    ensures
        decode_records(widths, s, at, k) == Some(
            (images.subrange(0, k), at + chunk_codes(widths, images, k).len()),
        ),
    decreases k,
{
    if k <= 0 {
        assert(images.subrange(0, 0) =~= Seq::<Seq<u8>>::empty());
    } else {
        let len = total_width(widths);
        let head = chunk_codes(widths, images, k - 1);
        let all = chunk_codes(widths, images, k);
        let last = last_of(images, k - 1, len);
        let before = before_of(images, k - 1, len);
        let codes = record_codes(widths, last, before, images[k - 1], widths.len() as int);
        assert(all == head + codes);
        assert(s.subrange(at, at + head.len()) =~= all.subrange(0, head.len() as int));
        assert(all.subrange(0, head.len() as int) =~= head);
        lemma_records_of_codes(widths, images, s, at, k - 1);
        let done = images.subrange(0, k - 1);
        assert(last_of(done, k - 1, len) == last);
        assert(before_of(done, k - 1, len) == before);
        let pos = at + head.len();
        assert(s.subrange(pos, pos + codes.len()) =~= all.subrange(
            head.len() as int,
            all.len() as int,
        ));
        assert(all.subrange(head.len() as int, all.len() as int) =~= codes);
        lemma_fields_of_codes(
            widths,
            last,
            before,
            images[k - 1],
            s,
            pos,
            widths.len() as int,
        );
        assert(images[k - 1].subrange(0, len) =~= images[k - 1]);
        assert(done.push(images[k - 1]) =~= images.subrange(0, k));
    }
}

/// The records of a stream are read back by its chunk table, wherever the
/// stream stands in `s`.
pub proof fn lemma_unpack_of_pack(
    widths: Seq<u8>,
    images: Seq<Seq<u8>>,
    chunk_size: int,
    s: Seq<u8>,
    at: int,
)
    requires
        widths_ok(widths),
        all_of_len(images, total_width(widths)),
        fits_u64(widths, images, chunk_size),
        0 <= at,
        at + pack(widths, images, chunk_size).0.len() <= s.len(),
        s.subrange(at, at + pack(widths, images, chunk_size).0.len()) == pack(
            widths,
            images,
            chunk_size,
        ).0,
    ensures
        unpack(widths, s, at, pack(widths, images, chunk_size).1) == Ok::<Seq<Seq<u8>>, int>(
            images,
        ),
    decreases images.len(),
{
    reveal(pack);
    reveal(unpack);
    if images.len() > 0 {
        let n = first_chunk_len(images.len() as int, chunk_size);
        let head = images.subrange(0, n);
        let tail = images.subrange(n, images.len() as int);
        let codes = chunk_codes(widths, head, n);
        let rest = pack(widths, tail, chunk_size);
        let whole = pack(widths, images, chunk_size);
        let entry = ChunkEntry { point_count: n as u64, byte_length: codes.len() as u64 };
        assert(whole.0 == codes + rest.0);
        assert(whole.1 == seq![entry] + rest.1);
        assert(whole.1[0] == entry);
        assert(whole.1.drop_first() =~= rest.1);
        let end = at + codes.len();
        let chunk = s.subrange(at, end);
        assert(chunk =~= whole.0.subrange(0, codes.len() as int));
        assert(whole.0.subrange(0, codes.len() as int) =~= codes);
        assert(chunk.subrange(0, codes.len() as int) =~= chunk);
        lemma_records_of_codes(widths, head, chunk, 0, n);
        assert(head.subrange(0, n) =~= head);
        assert(chunk_images(widths, chunk, n) == Some(head));
        assert(s.subrange(end, end + rest.0.len()) =~= whole.0.subrange(
            codes.len() as int,
            whole.0.len() as int,
        ));
        assert(whole.0.subrange(codes.len() as int, whole.0.len() as int) =~= rest.0);
        lemma_unpack_of_pack(widths, tail, chunk_size, s, end);
        assert(head + tail =~= images);
        assert(entry.byte_length == codes.len());
        assert(entry.point_count == n);
        assert(unpack(widths, s, end, rest.1) == Ok::<Seq<Seq<u8>>, int>(tail));
        assert(unpack(widths, s, at, whole.1) == Ok::<Seq<Seq<u8>>, int>(head + tail));
    } else {
        assert(images =~= Seq::<Seq<u8>>::empty());
    }
}

/// Compressing records of one format and decompressing the stream by its
/// chunk table gives the records again, in their order, whatever the chunk
/// size.
pub proof fn lemma_decompress_of_compressed(
    records: Seq<PointRecord>,
    format: u8,
    chunk_size: int,
)
    requires
        share_format(records, format),
        format <= MAX_FORMAT,
        fits_u64(field_widths(format), images_of(records), chunk_size),
    ensures
        decompressed(
            compressed(records, format, chunk_size).0,
            compressed(records, format, chunk_size).1,
            format,
        ) == Ok::<Seq<PointRecord>, LasError>(records),
{
    let widths = field_widths(format);
    let images = images_of(records);
    lemma_widths_fill_record(format);
    assert forall|i: int| 0 <= i < images.len() implies (#[trigger] images[i]).len()
        == total_width(widths) by {
        lemma_record_bytes_len(records[i]);
    }
    let s = pack(widths, images, chunk_size).0;
    assert(s.subrange(0, s.len() as int) =~= s);
    lemma_unpack_of_pack(widths, images, chunk_size, s, 0);
    assert forall|i: int| 0 <= i < records.len() implies record_at(format, images[i])
        == records[i] by {
        lemma_read_of_written(records[i], Seq::empty());
        assert(record_bytes(records[i]) + Seq::<u8>::empty() =~= record_bytes(records[i]));
    }
    assert(records_of(format, images) =~= records);
}

/// The starts of the chunks are not negative.
pub proof fn lemma_starts_not_negative(table: Seq<ChunkEntry>, k: int)
    ensures
        0 <= byte_start(table, k),
        0 <= point_start(table, k),
    decreases k,
{
    if k > 0 {
        lemma_starts_not_negative(table, k - 1);
    }
}

/// The start of chunk `k` of a table is that of chunk `k - 1` of the table
/// without its first entry, after the first chunk.
pub proof fn lemma_starts_shift(table: Seq<ChunkEntry>, k: int)
    requires
        1 <= k <= table.len(),
    ensures
        byte_start(table, k) == table[0].byte_length + byte_start(table.drop_first(), k - 1),
        point_start(table, k) == table[0].point_count + point_start(table.drop_first(), k - 1),
    decreases k,
{
    let tail = table.drop_first();
    if k > 1 {
        lemma_starts_shift(table, k - 1);
        assert(tail[k - 2] == table[k - 1]);
        assert(byte_start(table, k) == byte_start(table, k - 1) + table[k - 1].byte_length);
        assert(byte_start(tail, k - 1) == byte_start(tail, k - 2) + tail[k - 2].byte_length);
        assert(point_start(table, k) == point_start(table, k - 1) + table[k - 1].point_count);
        assert(point_start(tail, k - 1) == point_start(tail, k - 2) + tail[k - 2].point_count);
    } else {
        assert(byte_start(table, 1) == byte_start(table, 0) + table[0].byte_length);
        assert(byte_start(table, 0) == 0);
        assert(byte_start(tail, 0) == 0);
        assert(point_start(table, 1) == point_start(table, 0) + table[0].point_count);
        assert(point_start(table, 0) == 0);
        assert(point_start(tail, 0) == 0);
    }
}

/// Where a stream decodes as a whole, each of its chunks decodes by itself
/// to the records that it has in the whole.
pub proof fn lemma_chunk_alone(
    widths: Seq<u8>,
    s: Seq<u8>,
    at: int,
    table: Seq<ChunkEntry>,
    k: int,
)
    requires
        widths_ok(widths),
        0 <= at <= s.len(),
        0 <= k < table.len(),
        unpack(widths, s, at, table) is Ok,
    ensures
        ({
            let all = unpack(widths, s, at, table)->Ok_0;
            let start = at + byte_start(table, k);
            let end = start + table[k].byte_length;
            let first = point_start(table, k);
            &&& end <= s.len()
            &&& first + table[k].point_count <= all.len()
            &&& chunk_images(widths, s.subrange(start, end), table[k].point_count as int)
                == Some(all.subrange(first, first + table[k].point_count))
        }),
    decreases k,
{
    reveal(unpack);
    let end0 = at + table[0].byte_length;
    assert(end0 <= s.len());
    let chunk0 = s.subrange(at, end0);
    assert(chunk_images(widths, chunk0, table[0].point_count as int) is Some);
    assert(unpack(widths, s, end0, table.drop_first()) is Ok);
    let images = chunk_images(widths, chunk0, table[0].point_count as int).unwrap();
    let rest = unpack(widths, s, end0, table.drop_first())->Ok_0;
    let all = unpack(widths, s, at, table)->Ok_0;
    assert(all == images + rest);
    lemma_decode_records_len(widths, chunk0, 0, table[0].point_count as int);
    assert(images.len() == table[0].point_count);
    if k == 0 {
        assert(byte_start(table, 0) == 0);
        assert(point_start(table, 0) == 0);
        assert(all.subrange(0, table[0].point_count as int) =~= images);
    } else {
        lemma_starts_shift(table, k);
        lemma_starts_not_negative(table.drop_first(), k - 1);
        lemma_chunk_alone(widths, s, end0, table.drop_first(), k - 1);
        let first = point_start(table.drop_first(), k - 1);
        let count = table[k].point_count as int;
        assert(table.drop_first()[k - 1] == table[k]);
        assert(first + count <= rest.len());
        assert(rest.subrange(first, first + count) =~= all.subrange(
            table[0].point_count + first,
            table[0].point_count + first + count,
        ));
    }
}

/// Where a stream decompresses as a whole, decompressing chunk `k` alone
/// gives the records that the whole has from the first record of that
/// chunk on, as many as the chunk has.
pub proof fn lemma_chunk_independence(s: Seq<u8>, table: Seq<ChunkEntry>, k: int, format: u8)
    requires
        format <= MAX_FORMAT,
        0 <= k < table.len(),
        decompressed(s, table, format) is Ok,
    ensures
        ({
            let all = decompressed(s, table, format).unwrap();
            let first = point_start(table, k);
            &&& first + table[k].point_count <= all.len()
            &&& chunk_decompressed(s, table, k, format) == Ok::<Seq<PointRecord>, LasError>(
                all.subrange(first, first + table[k].point_count),
            )
        }),
{
    let widths = field_widths(format);
    lemma_widths_fill_record(format);
    lemma_chunk_alone(widths, s, 0, table, k);
    lemma_starts_not_negative(table, k);
    let images = unpack(widths, s, 0, table)->Ok_0;
    let first = point_start(table, k);
    let count = table[k].point_count as int;
    assert(records_of(format, images.subrange(first, first + count)) =~= records_of(
        format,
        images,
    ).subrange(first, first + count));
}

/// The chunk found for a record holds it, or the record lies after the
/// last chunk.
pub proof fn lemma_chunk_holding(table: Seq<ChunkEntry>, index: int, k: int)
    requires
        0 <= k <= table.len(),
        point_start(table, k) <= index,
    ensures
        ({
            let c = chunk_holding(table, index, k);
            &&& k <= c <= table.len()
            &&& point_start(table, c) <= index
            &&& c < table.len() ==> index < point_start(table, c) + table[c].point_count
            &&& c == table.len() ==> point_start(table, table.len() as int) <= index
        }),
    decreases table.len() - k,
{
    if k < table.len() && index >= point_start(table, k + 1) {
        lemma_chunk_holding(table, index, k + 1);
    }
}

/// A chunk that decompresses gives as many records as the table declares.
pub proof fn lemma_chunk_len(s: Seq<u8>, table: Seq<ChunkEntry>, k: int, format: u8)
    requires
        format <= MAX_FORMAT,
        0 <= k < table.len(),
    ensures
        chunk_decompressed(s, table, k, format) matches Ok(records) ==> records.len()
            == table[k].point_count,
{
    let widths = field_widths(format);
    lemma_widths_fill_record(format);
    lemma_starts_not_negative(table, k);
    let start = byte_start(table, k);
    let end = start + table[k].byte_length;
    if end <= s.len() {
        lemma_decode_records_len(widths, s.subrange(start, end), 0, table[k].point_count as int);
    }
}

/// The chunks start in the order of their numbers.
pub proof fn lemma_starts_grow(table: Seq<ChunkEntry>, j: int, k: int)
    requires
        0 <= j <= k,
    ensures
        point_start(table, j) <= point_start(table, k),
        byte_start(table, j) <= byte_start(table, k),
    decreases k,
{
    if j < k {
        lemma_starts_grow(table, j, k - 1);
    }
}

/// A record that lies between the start of chunk `k` and the start of the
/// next chunk is held by chunk `k`.
pub proof fn lemma_chunk_of_point(table: Seq<ChunkEntry>, k: int, index: int, from: int)
    requires
        0 <= from <= k < table.len(),
        point_start(table, k) <= index < point_start(table, k + 1),
    ensures
        chunk_holding(table, index, from) == k,
    decreases k - from,
{
    if from < k {
        lemma_starts_grow(table, from + 1, k);
        lemma_chunk_of_point(table, k, index, from + 1);
    }
}

/// The codes of the records of a chunk take at least one byte to a record.
pub proof fn lemma_chunk_codes_len(widths: Seq<u8>, images: Seq<Seq<u8>>, k: int)
    requires
        widths.len() >= 1,
        0 <= k,
    ensures
        chunk_codes(widths, images, k).len() >= k,
    decreases k,
{
    if k > 0 {
        let len = total_width(widths);
        lemma_chunk_codes_len(widths, images, k - 1);
        lemma_record_codes_len(
            widths,
            last_of(images, k - 1, len),
            before_of(images, k - 1, len),
            images[k - 1],
            widths.len() as int,
        );
    }
}

/// The chunk table of a stream counts the records and the bytes of the
/// stream, and no chunk has more records than bytes.
pub proof fn lemma_pack_table(widths: Seq<u8>, images: Seq<Seq<u8>>, chunk_size: int)
    requires
        widths.len() >= 1,
        fits_u64(widths, images, chunk_size),
    ensures
        ({
            let packed = pack(widths, images, chunk_size);
            let n = packed.1.len() as int;
            &&& n <= images.len()
            &&& point_start(packed.1, n) == images.len()
            &&& byte_start(packed.1, n) == packed.0.len()
            &&& forall|i: int|
                0 <= i < n ==> (#[trigger] packed.1[i]).point_count <= packed.1[i].byte_length
        }),
    decreases images.len(),
{
    reveal(pack);
    if images.len() > 0 {
        let n = first_chunk_len(images.len() as int, chunk_size);
        let head = images.subrange(0, n);
        let tail = images.subrange(n, images.len() as int);
        let codes = chunk_codes(widths, head, n);
        let rest = pack(widths, tail, chunk_size);
        let whole = pack(widths, images, chunk_size);
        let entry = ChunkEntry { point_count: n as u64, byte_length: codes.len() as u64 };
        assert(whole.0 == codes + rest.0);
        assert(whole.1 == seq![entry] + rest.1);
        assert(whole.1.drop_first() =~= rest.1);
        lemma_chunk_codes_len(widths, head, n);
        lemma_pack_table(widths, tail, chunk_size);
        lemma_starts_shift(whole.1, whole.1.len() as int);
        assert forall|i: int| 0 <= i < whole.1.len() implies (#[trigger] whole.1[i]).point_count
            <= whole.1[i].byte_length by {
            if i > 0 {
                assert(whole.1[i] == rest.1[i - 1]);
            }
        }
    } else {
        assert(point_start(Seq::<ChunkEntry>::empty(), 0) == 0);
        assert(byte_start(Seq::<ChunkEntry>::empty(), 0) == 0);
    }
}

/// Where a stream decompresses as a whole to as many records as its table
/// counts, the chunk that holds record `i` decompresses by itself, and its
/// record for `i` is that of the whole.
pub proof fn lemma_point_of_stream(s: Seq<u8>, table: Seq<ChunkEntry>, format: u8, i: int)
    requires
        format <= MAX_FORMAT,
        decompressed(s, table, format) is Ok,
        point_start(table, table.len() as int) == decompressed(s, table, format).unwrap().len(),
        0 <= i < point_start(table, table.len() as int),
    ensures
        ({
            let all = decompressed(s, table, format).unwrap();
            let k = chunk_holding(table, i, 0);
            let first = point_start(table, k);
            let count = table[k].point_count as int;
            &&& 0 <= k < table.len()
            &&& 0 <= i - first < count
            &&& first + count <= all.len()
            &&& chunk_decompressed(s, table, k, format) == Ok::<Seq<PointRecord>, LasError>(
                all.subrange(first, first + count),
            )
        }),
{
    let k = chunk_holding(table, i, 0);
    assert(point_start(table, 0) == 0);
    lemma_chunk_holding(table, i, 0);
    lemma_chunk_independence(s, table, k, format);
}

/// In the stream of compressed records, the chunk that holds record `i`
/// decompresses by itself, and its record for `i` is the one that was
/// compressed.
pub proof fn lemma_point_of_compressed(
    records: Seq<PointRecord>,
    format: u8,
    chunk_size: int,
    i: int,
)
    requires
        share_format(records, format),
        format <= MAX_FORMAT,
        fits_u64(field_widths(format), images_of(records), chunk_size),
        0 <= i < records.len(),
    ensures
        ({
            let packed = compressed(records, format, chunk_size);
            let k = chunk_holding(packed.1, i, 0);
            let first = point_start(packed.1, k);
            &&& 0 <= k < packed.1.len()
            &&& 0 <= i - first < packed.1[k].point_count
            &&& chunk_decompressed(packed.0, packed.1, k, format) matches Ok(found) && found.len()
                == packed.1[k].point_count && found[i - first] == records[i]
        }),
{
    let packed = compressed(records, format, chunk_size);
    let k = chunk_holding(packed.1, i, 0);
    let first = point_start(packed.1, k);
    let count = packed.1[k].point_count as int;
    assert(point_start(packed.1, packed.1.len() as int) == records.len()) by {
        lemma_widths_fill_record(format);
        lemma_pack_table(field_widths(format), images_of(records), chunk_size);
    }
    lemma_decompress_of_compressed(records, format, chunk_size);
    lemma_point_of_stream(packed.0, packed.1, format, i);
    lemma_starts_not_negative(packed.1, k);
    assert(records.subrange(first, first + count)[i - first] == records[i]);
}

} // verus!
