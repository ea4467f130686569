//! The codes of one point record in the compressed stream: for each field
//! its residual against what the two records before it let one expect.

use vstd::prelude::*;
use crate::bytes::u64_bytes;
use crate::layout::{
    field_at, field_bytes, lemma_bytes_of_field, lemma_field_of_bytes, lemma_offsets_grow,
    offset_of, push_field, read_field, total_width, widths_ok,
};
use crate::varint::{
    add_mod, code_of, lemma_code_round_trip, lemma_predicted_in_range,
    lemma_varint_at, lemma_varint_len_u64, modulus, predicted, push_varint, read_varint, sub_mod,
    value_of, varint, varint_at, MAX_VARINT_LEN,
};

verus! {

/// What is expected of field `j` of a record that follows the records with
/// the bytes `last` and, before that, `before`. The first three fields are
/// the coordinates.
pub open spec fn field_prediction(widths: Seq<u8>, last: Seq<u8>, before: Seq<u8>, j: int) -> int {
    let at = offset_of(widths, j);
    predicted(
        j < 3,
        field_at(last, at, widths[j]),
        field_at(before, at, widths[j]),
        modulus(widths[j]),
    )
}

/// The code of field `j` of the record with the bytes `image`.
pub open spec fn field_code(
    widths: Seq<u8>,
    last: Seq<u8>,
    before: Seq<u8>,
    image: Seq<u8>,
    j: int,
) -> int {
    code_of(
        field_at(image, offset_of(widths, j), widths[j]),
        field_prediction(widths, last, before, j),
        modulus(widths[j]),
    )
}

/// The bytes of the codes of the first `k` fields of a record.
pub open spec fn record_codes(
    widths: Seq<u8>,
    last: Seq<u8>,
    before: Seq<u8>,
    image: Seq<u8>,
    k: int,
) -> Seq<u8>
    decreases k,
{
    if k <= 0 {
        Seq::empty()
    } else {
        record_codes(widths, last, before, image, k - 1) + varint(
            field_code(widths, last, before, image, k - 1),
        )
    }
}

/// The bytes of the first `k` fields of the record whose codes stand at
/// `at` in `s`, and the place after the codes; `None` where `s` ends before
/// the codes do, or a code is too large for its field.
pub open spec fn decode_fields(
    widths: Seq<u8>,
    last: Seq<u8>,
    before: Seq<u8>,
    s: Seq<u8>,
    at: int,
    k: int,
) -> Option<(Seq<u8>, int)>
    decreases k,
{
    if k <= 0 {
        Some((Seq::empty(), at))
    } else {
        match decode_fields(widths, last, before, s, at, k - 1) {
            None => None,
            Some((image, pos)) => match varint_at(s, pos, MAX_VARINT_LEN as nat) {
                None => None,
                Some((code, next)) => {
                    let m = modulus(widths[k - 1]);
                    if code >= m {
                        None
                    } else {
                        Some(
                            (
                                image + field_bytes(
                                    value_of(
                                        code,
                                        field_prediction(widths, last, before, k - 1),
                                        m,
                                    ),
                                    widths[k - 1],
                                ),
                                next,
                            ),
                        )
                    }
                },
            },
        }
    }
}

/// Once the fields of a record cannot be decoded, more of them cannot.
pub proof fn lemma_decode_fields_stays_none(
    widths: Seq<u8>,
    last: Seq<u8>,
    before: Seq<u8>,
    s: Seq<u8>,
    at: int,
    k: int,
    n: int,
)
    requires
        0 <= k <= n,
        decode_fields(widths, last, before, s, at, k) is None,
    ensures
        decode_fields(widths, last, before, s, at, n) is None,
    decreases n,
{
    if k < n {
        lemma_decode_fields_stays_none(widths, last, before, s, at, k, n - 1);
    }
}

/// The decoded fields are as many bytes as their widths say, and their
/// codes lie within `s`.
pub proof fn lemma_decode_fields_len(
    widths: Seq<u8>,
    last: Seq<u8>,
    before: Seq<u8>,
    s: Seq<u8>,
    at: int,
    k: int,
)
    requires
        widths_ok(widths),
        0 <= k <= widths.len(),
        0 <= at <= s.len(),
    ensures
        decode_fields(widths, last, before, s, at, k) matches Some((image, pos)) ==> image.len()
            == offset_of(widths, k) && at <= pos <= s.len() && (k > 0 ==> at < pos),
    decreases k,
{
    if k > 0 {
        lemma_decode_fields_len(widths, last, before, s, at, k - 1);
        match decode_fields(widths, last, before, s, at, k - 1) {
            None => {},
            Some((image, pos)) => {
                lemma_varint_next(s, pos, MAX_VARINT_LEN as nat);
                let w = widths[k - 1];
                assert(w == 1 || w == 2 || w == 4 || w == 8);
                lemma_field_len(widths[k - 1]);
            },
        }
    }
}

/// The bytes of a field are as many as its width, whatever number they
/// hold.
pub proof fn lemma_field_len(width: u8)
    requires
        width == 1 || width == 2 || width == 4 || width == 8,
    ensures
        forall|v: int| #[trigger] field_bytes(v, width).len() == width,
{
    assert forall|v: int| #[trigger] field_bytes(v, width).len() == width by {
        assert(u64_bytes(v as u64).len() == 8);
    }
}

/// A number that is read ends after its start and within `s`.
pub proof fn lemma_varint_next(s: Seq<u8>, at: int, left: nat)
    ensures
        varint_at(s, at, left) matches Some((n, next)) ==> 0 <= n && at < next <= s.len(),
    decreases left,
{
    if left > 0 && 0 <= at < s.len() && s[at] >= 128 {
        lemma_varint_next(s, at + 1, (left - 1) as nat);
    }
}

/// The fields of a record are read back from their codes, wherever these
/// stand in `s`.
pub proof fn lemma_fields_of_codes(
    widths: Seq<u8>,
    last: Seq<u8>,
    before: Seq<u8>,
    image: Seq<u8>,
    s: Seq<u8>,
    at: int,
    k: int,
)
    requires
        widths_ok(widths),
        0 <= k <= widths.len(),
        image.len() == total_width(widths),
        last.len() == total_width(widths),
        before.len() == total_width(widths),
        0 <= at,
        at + record_codes(widths, last, before, image, k).len() <= s.len(),
        s.subrange(at, at + record_codes(widths, last, before, image, k).len()) == record_codes(
            widths,
            last,
            before,
            image,
            k,
        ),
    ensures
        decode_fields(widths, last, before, s, at, k) == Some(
            (
                image.subrange(0, offset_of(widths, k)),
                at + record_codes(widths, last, before, image, k).len(),
            ),
        ),
    decreases k,
{
    lemma_offsets_grow(widths, k, widths.len() as int);
    if k <= 0 {
        assert(image.subrange(0, 0) =~= Seq::<u8>::empty());
    } else {
        let head = record_codes(widths, last, before, image, k - 1);
        let w = widths[k - 1];
        let m = modulus(w);
        let off = offset_of(widths, k - 1);
        let p = field_prediction(widths, last, before, k - 1);
        let v = field_at(image, off, w);
        let c = field_code(widths, last, before, image, k - 1);
        let all = record_codes(widths, last, before, image, k);
        assert(all == head + varint(c));
        lemma_offsets_grow(widths, k - 1, k);
        assert(w == 1 || w == 2 || w == 4 || w == 8);
        lemma_field_of_bytes(image, off, w);
        lemma_field_of_bytes(last, off, w);
        lemma_field_of_bytes(before, off, w);
        lemma_predicted_in_range(k - 1 < 3, field_at(last, off, w), field_at(before, off, w), m);
        lemma_code_round_trip(v, p, m);
        lemma_varint_len_u64(c);
        assert(s.subrange(at, at + head.len()) =~= all.subrange(0, head.len() as int));
        assert(all.subrange(0, head.len() as int) =~= head);
        lemma_fields_of_codes(widths, last, before, image, s, at, k - 1);
        let pos = at + head.len();
        assert(s.subrange(pos, pos + varint(c).len()) =~= all.subrange(
            head.len() as int,
            all.len() as int,
        ));
        assert(all.subrange(head.len() as int, all.len() as int) =~= varint(c));
        lemma_varint_at(s, pos, c, MAX_VARINT_LEN as nat);
        assert(image.subrange(0, off) + image.subrange(off, off + w) =~= image.subrange(
            0,
            offset_of(widths, k),
        ));
    }
}

/// The number of values that a field of `width` bytes can hold.
fn modulus_of(width: u8) -> (m: u128)
    ensures
        m == modulus(width),
{
    if width == 1 {
        0x100
    } else if width == 2 {
        0x1_0000
    } else if width == 4 {
        0x1_0000_0000
    } else {
        0x1_0000_0000_0000_0000
    }
}

/// `a - b` modulo `m`.
fn sub_modulo(a: u128, b: u128, m: u128) -> (r: u128)
    requires
        a < m,
        b < m,
        m <= 0x1_0000_0000_0000_0000,
    ensures
        r == sub_mod(a as int, b as int, m as int),
        r < m,
{
    if a >= b {
        a - b
    } else {
        a + m - b
    }
}

/// `a + b` modulo `m`.
fn add_modulo(a: u128, b: u128, m: u128) -> (r: u128)
    requires
        a < m,
        b < m,
        m <= 0x1_0000_0000_0000_0000,
    ensures
        r == add_mod(a as int, b as int, m as int),
        r < m,
{
    if a + b >= m {
        a + b - m
    } else {
        a + b
    }
}

/// What is expected of a value after `last`, which came after `before`.
fn predict(second_order: bool, last: u128, before: u128, m: u128) -> (p: u128)
    requires
        last < m,
        before < m,
        m <= 0x1_0000_0000_0000_0000,
    ensures
        p == predicted(second_order, last as int, before as int, m as int),
        p < m,
{
    if second_order {
        add_modulo(last, sub_modulo(last, before, m), m)
    } else {
        last
    }
}

/// The code of the value `v` against the prediction `p`.
fn encode_value(v: u128, p: u128, m: u128) -> (e: u128)
    requires
        v < m,
        p < m,
        m <= 0x1_0000_0000_0000_0000,
        m % 2 == 0,
    ensures
        e == code_of(v as int, p as int, m as int),
        e < m,
{
    let d = sub_modulo(v, p, m);
    if 2 * d < m {
        2 * d
    } else {
        2 * (m - 1 - d) + 1
    }
}

/// The value whose code against the prediction `p` is `e`.
fn decode_value(e: u128, p: u128, m: u128) -> (v: u128)
    requires
        e < m,
        p < m,
        m <= 0x1_0000_0000_0000_0000,
        m % 2 == 0,
    ensures
        v == value_of(e as int, p as int, m as int),
        v < m,
{
    let d = if e % 2 == 0 {
        e / 2
    } else {
        m - 1 - (e - 1) / 2
    };
    add_modulo(p, d, m)
}

/// What is expected of the field of the given width at `at`, after the
/// records with the bytes `last` and `before`.
fn predict_field(second_order: bool, last: &[u8], before: &[u8], at: usize, width: u8) -> (p: u128)
    requires
        width == 1 || width == 2 || width == 4 || width == 8,
        at + width <= last.len(),
        at + width <= before.len(),
    ensures
        p == predicted(
            second_order,
            field_at(last@, at as int, width),
            field_at(before@, at as int, width),
            modulus(width),
        ),
        p < modulus(width),
{
    proof {
        lemma_field_of_bytes(last@, at as int, width);
        lemma_field_of_bytes(before@, at as int, width);
    }
    predict(
        second_order,
        read_field(last, at, width) as u128,
        read_field(before, at, width) as u128,
        modulus_of(width),
    )
}

/// Appends the codes of the record with the bytes `image`, which follows
/// the records with the bytes `last` and `before`.
pub(crate) fn encode_record(
    widths: &Vec<u8>,
    last: &[u8],
    before: &[u8],
    image: &[u8],
    out: &mut Vec<u8>,
)
    requires
        widths_ok(widths@),
        image@.len() == total_width(widths@),
        last@.len() == total_width(widths@),
        before@.len() == total_width(widths@),
    ensures
        final(out)@ == old(out)@ + record_codes(
            widths@,
            last@,
            before@,
            image@,
            widths@.len() as int,
        ),
{
    let mut j: usize = 0;
    let mut at: usize = 0;
    while j < widths.len()
        invariant
            j <= widths.len(),
            widths_ok(widths@),
            image@.len() == total_width(widths@),
            last@.len() == total_width(widths@),
            before@.len() == total_width(widths@),
            image.len() == image@.len(),
            at == offset_of(widths@, j as int),
            out@ == old(out)@ + record_codes(widths@, last@, before@, image@, j as int),
        decreases widths.len() - j,
    {
        let w = widths[j];
        proof {
            assert(w == 1 || w == 2 || w == 4 || w == 8);
            lemma_offsets_grow(widths@, j + 1, widths@.len() as int);
            lemma_field_of_bytes(image@, at as int, w);
        }
        let m = modulus_of(w);
        let p = predict_field(j < 3, last, before, at, w);
        let v = read_field(image, at, w) as u128;
        let e = encode_value(v, p, m);
        assert(e == field_code(widths@, last@, before@, image@, j as int));
        let ghost before_push = out@;
        push_varint(out, e as u64);
        assert(out@ =~= old(out)@ + record_codes(widths@, last@, before@, image@, j + 1));
        at = at + w as usize;
        j += 1;
    }
}

/// Reads the record whose codes stand at `at` in `s`, and which follows the
/// records with the bytes `last` and `before`; gives the record's bytes and
/// the place after its codes.
pub(crate) fn decode_record(
    widths: &Vec<u8>,
    last: &[u8],
    before: &[u8],
    s: &[u8],
    at: usize,
) -> (r: Option<(Vec<u8>, usize)>)
    requires
        widths_ok(widths@),
        last@.len() == total_width(widths@),
        before@.len() == total_width(widths@),
        at <= s.len(),
    ensures
        match decode_fields(widths@, last@, before@, s@, at as int, widths@.len() as int) {
            Some((image, next)) => r matches Some((bytes, pos)) && bytes@ == image && pos == next
                && image.len() == total_width(widths@) && at <= pos <= s.len() && (widths@.len()
                > 0 ==> at < pos),
            None => r is None,
        },
{
    let mut image: Vec<u8> = Vec::new();
    let mut pos: usize = at;
    let mut j: usize = 0;
    let mut off: usize = 0;
    while j < widths.len()
        invariant
            j <= widths.len(),
            widths_ok(widths@),
            last@.len() == total_width(widths@),
            before@.len() == total_width(widths@),
            last.len() == last@.len(),
            at <= pos <= s.len(),
            j > 0 ==> at < pos,
            off == offset_of(widths@, j as int),
            image@.len() == off,
            decode_fields(widths@, last@, before@, s@, at as int, j as int) == Some(
                (image@, pos as int),
            ),
        decreases widths.len() - j,
    {
        let w = widths[j];
        proof {
            assert(w == 1 || w == 2 || w == 4 || w == 8);
            lemma_offsets_grow(widths@, j + 1, widths@.len() as int);
            lemma_varint_next(s@, pos as int, MAX_VARINT_LEN as nat);
        }
        let m = modulus_of(w);
        let p = predict_field(j < 3, last, before, off, w);
        match read_varint(s, pos, MAX_VARINT_LEN) {
            None => {
                proof {
                    assert(decode_fields(widths@, last@, before@, s@, at as int, j + 1) is None);
                    lemma_decode_fields_stays_none(
                        widths@,
                        last@,
                        before@,
                        s@,
                        at as int,
                        j + 1,
                        widths@.len() as int,
                    );
                }
                return None;
            },
            Some((e, next)) => {
                if e >= m {
                    proof {
                        assert(decode_fields(widths@, last@, before@, s@, at as int, j + 1)
                            is None);
                        lemma_decode_fields_stays_none(
                            widths@,
                            last@,
                            before@,
                            s@,
                            at as int,
                            j + 1,
                            widths@.len() as int,
                        );
                    }
                    return None;
                }
                let v = decode_value(e, p, m);
                let ghost before_push = image@;
                push_field(&mut image, v as u64, w);
                proof {
                    lemma_bytes_of_field(v as int, w);
                    assert(varint_at(s@, pos as int, MAX_VARINT_LEN as nat) == Some(
                        (e as int, next as int),
                    ));
                    assert(p == field_prediction(widths@, last@, before@, j as int));
                    assert(image@ == before_push + field_bytes(
                        value_of(
                            e as int,
                            field_prediction(widths@, last@, before@, j as int),
                            modulus(w),
                        ),
                        w,
                    ));
                    assert(decode_fields(widths@, last@, before@, s@, at as int, j + 1) == Some(
                        (image@, next as int),
                    ));
                }
                pos = next;
                off = off + w as usize;
                j += 1;
            },
        }
    }
    Some((image, pos))
}

/// The codes of a record take at least one byte to a field.
pub proof fn lemma_record_codes_len(
    widths: Seq<u8>,
    last: Seq<u8>,
    before: Seq<u8>,
    image: Seq<u8>,
    k: int,
)
    requires
        0 <= k,
    ensures
        record_codes(widths, last, before, image, k).len() >= k,
    decreases k,
{
    if k > 0 {
        lemma_record_codes_len(widths, last, before, image, k - 1);
        assert(varint(field_code(widths, last, before, image, k - 1)).len() >= 1);
    }
}

} // verus!
