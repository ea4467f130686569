//! The codes of the compressed point stream: residuals against a
//! prediction, folded so that small differences of either sign give small
//! numbers, and written with seven bits to a byte.

use vstd::prelude::*;

verus! {

/// The greatest number of bytes that one number takes in the stream.
pub const MAX_VARINT_LEN: usize = 10;

/// 128 to the power of `k`.
pub open spec fn pow128(k: nat) -> int
    decreases k,
{
    if k == 0 {
        1
    } else {
        128 * pow128((k - 1) as nat)
    }
}

/// The bytes that stand for the number `n`, which is not negative: seven
/// bits to a byte, the low ones first, the high bit set in every byte but
/// the last.
pub open spec fn varint(n: int) -> Seq<u8>
    decreases n,
{
    if n < 128 {
        seq![n as u8]
    } else {
        seq![(n % 128 + 128) as u8] + varint(n / 128)
    }
}

/// The number that stands at `at` in `s`, in at most `left` bytes, and the
/// place after it; `None` where `s` ends, or `left` bytes pass, before the
/// number does.
pub open spec fn varint_at(s: Seq<u8>, at: int, left: nat) -> Option<(int, int)>
    decreases left,
{
    if left == 0 || at < 0 || at >= s.len() {
        None
    } else if s[at] < 128 {
        Some((s[at] as int, at + 1))
    } else {
        match varint_at(s, at + 1, (left - 1) as nat) {
            Some((high, next)) => Some((s[at] - 128 + 128 * high, next)),
            None => None,
        }
    }
}

/// The number of values that a field of `width` bytes can hold, for the
/// widths 1, 2, 4 and 8.
pub open spec fn modulus(width: u8) -> int {
    if width == 1 {
        0x100
    } else if width == 2 {
        0x1_0000
    } else if width == 4 {
        0x1_0000_0000
    } else {
        0x1_0000_0000_0000_0000
    }
}

/// `a - b` modulo `m`, for `a` and `b` from 0 to `m - 1`.
pub open spec fn sub_mod(a: int, b: int, m: int) -> int {
    if a >= b {
        a - b
    } else {
        a + m - b
    }
}

/// `a + b` modulo `m`, for `a` and `b` from 0 to `m - 1`.
pub open spec fn add_mod(a: int, b: int, m: int) -> int {
    if a + b >= m {
        a + b - m
    } else {
        a + b
    }
}

/// The difference `d` modulo `m`, folded: the differences 0, -1, 1, -2, ...
/// give 0, 1, 2, 3, ...
pub open spec fn zigzag(d: int, m: int) -> int {
    if 2 * d < m {
        2 * d
    } else {
        2 * (m - 1 - d) + 1
    }
}

/// The difference modulo `m` that `zigzag` folds to `e`.
pub open spec fn unzigzag(e: int, m: int) -> int {
    if e % 2 == 0 {
        e / 2
    } else {
        m - 1 - (e - 1) / 2
    }
}

/// What is expected of a value after `last`, which came after `before`:
/// `last` again, or, of a coordinate, `last` and once more the step from
/// `before` to `last`.
pub open spec fn predicted(second_order: bool, last: int, before: int, m: int) -> int {
    if second_order {
        add_mod(last, sub_mod(last, before, m), m)
    } else {
        last
    }
}

/// The code of the value `v` against the prediction `p`.
pub open spec fn code_of(v: int, p: int, m: int) -> int {
    zigzag(sub_mod(v, p, m), m)
}

/// The value whose code against the prediction `p` is `e`.
pub open spec fn value_of(e: int, p: int, m: int) -> int {
    add_mod(p, unzigzag(e, m), m)
}

/// A code is as small as the values are, and gives its value back.
pub proof fn lemma_code_round_trip(v: int, p: int, m: int)
    requires
        m > 0,
        m % 2 == 0,
        0 <= v < m,
        0 <= p < m,
    ensures
        0 <= code_of(v, p, m) < m,
        value_of(code_of(v, p, m), p, m) == v,
{
}

/// Every code below `m` gives a value below `m`, of which it is the code.
pub proof fn lemma_value_in_range(e: int, p: int, m: int)
    requires
        m > 0,
        m % 2 == 0,
        0 <= e < m,
        0 <= p < m,
    ensures
        0 <= value_of(e, p, m) < m,
        code_of(value_of(e, p, m), p, m) == e,
{
}

/// A prediction is a value.
pub proof fn lemma_predicted_in_range(second_order: bool, last: int, before: int, m: int)
    requires
        m > 0,
        0 <= last < m,
        0 <= before < m,
    ensures
        0 <= predicted(second_order, last, before, m) < m,
{
}

/// A number below 128 to the power of `k` takes at most `k` bytes.
pub proof fn lemma_varint_len(n: int, k: nat)
    requires
        0 <= n < pow128(k),
        k >= 1,
    ensures
        1 <= varint(n).len() <= k,
    decreases k,
{
    if n >= 128 {
        assert(pow128(k) == 128 * pow128((k - 1) as nat));
        assert(pow128(1) == 128) by {
            reveal_with_fuel(pow128, 2);
        }
        assert(k >= 2);
        lemma_varint_len(n / 128, (k - 1) as nat);
    }
}

/// A number of 64 bits takes at most ten bytes.
pub proof fn lemma_varint_len_u64(n: int)
    requires
        0 <= n < 0x1_0000_0000_0000_0000,
    ensures
        1 <= varint(n).len() <= 10,
{
    assert(pow128(10) == 0x40_0000_0000_0000_0000) by {
        reveal_with_fuel(pow128, 11);
    }
    lemma_varint_len(n, 10);
}

/// A number is read back from its bytes, wherever these stand in `s`.
pub proof fn lemma_varint_at(s: Seq<u8>, at: int, n: int, left: nat)
    requires
        0 <= n,
        0 <= at,
        varint(n).len() <= left,
        at + varint(n).len() <= s.len(),
        s.subrange(at, at + varint(n).len()) == varint(n),
    ensures
        varint_at(s, at, left) == Some((n, at + varint(n).len())),
    decreases left,
{
    let v = varint(n);
    assert(s[at] == s.subrange(at, at + v.len())[0]);
    if n >= 128 {
        let rest = varint(n / 128);
        assert(v == seq![(n % 128 + 128) as u8] + rest);
        assert(s.subrange(at + 1, at + 1 + rest.len()) =~= v.subrange(1, v.len() as int));
        assert(v.subrange(1, v.len() as int) =~= rest);
        lemma_varint_at(s, at + 1, n / 128, (left - 1) as nat);
    }
}

/// Appends the bytes that stand for `n`.
pub fn push_varint(out: &mut Vec<u8>, n: u64)
    ensures
        final(out)@ == old(out)@ + varint(n as int),
{
    let mut rest: u64 = n;
    while rest >= 128
        invariant
            out@ + varint(rest as int) == old(out)@ + varint(n as int),
        decreases rest,
    {
        let ghost before = out@;
        out.push((rest % 128 + 128) as u8);
        assert(before + varint(rest as int) =~= out@ + varint(rest as int / 128));
        rest = rest / 128;
    }
    let ghost before = out@;
    out.push(rest as u8);
    assert(out@ =~= before + varint(rest as int));
}

/// Reads the number that stands at `at` in `s`, in at most `left` bytes.
pub fn read_varint(s: &[u8], at: usize, left: usize) -> (r: Option<(u128, usize)>)
    requires
        left <= MAX_VARINT_LEN,
    ensures
        match varint_at(s@, at as int, left as nat) {
            Some((n, next)) => r matches Some((value, pos)) && value == n && pos == next && 0 <= n
                < pow128(left as nat) && at < next <= s@.len(),
            None => r is None,
        },
    decreases left,
{
    if left == 0 || at >= s.len() {
        return None;
    }
    let byte = s[at];
    proof {
        assert(pow128(left as nat) == 128 * pow128((left - 1) as nat));
        assert(pow128(10) == 0x40_0000_0000_0000_0000) by {
            reveal_with_fuel(pow128, 11);
        }
        lemma_pow128_grows((left - 1) as nat, 9);
        lemma_pow128_grows(0, (left - 1) as nat);
    }
    if byte < 128 {
        return Some((byte as u128, at + 1));
    }
    match read_varint(s, at + 1, left - 1) {
        Some((high, next)) => Some(((byte - 128) as u128 + 128 * high, next)),
        None => None,
    }
}

/// The powers of 128 grow.
pub proof fn lemma_pow128_grows(j: nat, k: nat)
    requires
        j <= k,
    ensures
        1 <= pow128(j) <= pow128(k),
    decreases k,
{
    if k > 0 {
        if j < k {
            lemma_pow128_grows(j, (k - 1) as nat);
        } else {
            lemma_pow128_grows((j - 1) as nat, (k - 1) as nat);
        }
    }
}

} // verus!
