//! Decimal numbers carried by the wire protocol.
//!
//! Prices and balances arrive either as JSON numbers or as numeric strings.
//! Both forms reach this module as the text of the numeral, and both decode
//! to the same [`Decimal`] value: a sign, an integer mantissa and a decimal
//! scale.  The accepted numerals are `-? digits (. digits)?`.

use vstd::prelude::*;
use vstd::string::StrSliceExecFns;

verus! {

/// A decimal number.  The value it denotes is
/// `(if neg { -1 } else { 1 }) * mantissa / 10^scale`.
#[derive(Debug, Clone, Copy, PartialEq, Eq, Structural)]
pub struct Decimal {
    pub neg: bool,
    pub mantissa: u64,
    pub scale: u32,
}

impl Decimal {
    /// Builds the decimal with the given sign, mantissa and scale.
    pub fn new(neg: bool, mantissa: u64, scale: u32) -> (r: Decimal)
        ensures
            r == (Decimal { neg, mantissa, scale }),
    {
        Decimal { neg, mantissa, scale }
    }
}

/// Whether the character is a decimal digit.
pub open spec fn is_digit(c: char) -> bool {
    48 <= c as int <= 57
}

/// The numeric value of a digit character.
pub open spec fn digit_val(c: char) -> int {
    c as int - 48
}

/// Whether every character of the sequence is a decimal digit.
pub open spec fn all_digits(s: Seq<char>) -> bool {
    forall|i: int| 0 <= i < s.len() ==> is_digit(s[i])
}

/// The value of a digit sequence read as a base-10 numeral.
pub open spec fn digits_val(s: Seq<char>) -> int
    decreases s.len(),
{
    if s.len() == 0 {
        0
    } else {
        digits_val(s.drop_last()) * 10 + digit_val(s.last())
    }
}

pub proof fn lemma_digits_val_nonneg(s: Seq<char>)
    requires
        all_digits(s),
    ensures
        digits_val(s) >= 0,
    decreases s.len(),
{
    if s.len() > 0 {
        assert(all_digits(s.drop_last()));
        lemma_digits_val_nonneg(s.drop_last());
    }
}

/// A digit sequence is worth at least any of its prefixes.
pub proof fn lemma_digits_val_prefix(s: Seq<char>, k: int)
    requires
        all_digits(s),
        0 <= k <= s.len(),
    ensures
        digits_val(s.take(k)) <= digits_val(s),
    decreases s.len() - k,
{
    if k < s.len() {
        lemma_digits_val_prefix(s, k + 1);
        let t = s.take(k + 1);
        assert(t.drop_last() =~= s.take(k));
        assert(all_digits(s.take(k)));
        lemma_digits_val_nonneg(s.take(k));
        assert(digits_val(t) == digits_val(s.take(k)) * 10 + digit_val(s[k]));
    } else {
        assert(s.take(k) =~= s);
    }
}

/// Where a dot may legally split the numeral `t` into integer and fraction.
pub open spec fn dot_at(t: Seq<char>, i: int) -> bool {
    &&& 1 <= i <= t.len() - 2
    &&& t[i] == '.'
    &&& all_digits(t.take(i))
    &&& all_digits(t.skip(i + 1))
}

/// At most one position can split the numeral.
pub proof fn lemma_dot_unique(t: Seq<char>, i: int, j: int)
    requires
        dot_at(t, i),
        dot_at(t, j),
    ensures
        i == j,
{
    if i < j {
        assert(t.skip(i + 1)[j - i - 1] == t[j]);
        assert(is_digit(t[j]));
    }
    if j < i {
        assert(t.skip(j + 1)[i - j - 1] == t[i]);
        assert(is_digit(t[i]));
    }
}

/// The digits of the numeral `t` with the single dot, if any, removed.
pub open spec fn dec_digits(t: Seq<char>, i: int) -> Seq<char> {
    t.take(i) + t.skip(i + 1)
}

/// A numeral without leading digits parses to nothing.
proof fn lemma_none_no_intdigits(neg: bool, t: Seq<char>)
    requires
        t.len() == 0 || !is_digit(t[0]),
    ensures
        spec_dec_body(neg, t) is None,
{
    assert forall|i: int| !dot_at(t, i) by {
        if dot_at(t, i) {
            assert(t.take(i)[0] == t[0]);
        }
    }
}

/// A numeral that breaks off at a character that is neither digit nor dot
/// parses to nothing.
proof fn lemma_none_bad_break(neg: bool, t: Seq<char>, d: int)
    requires
        1 <= d < t.len(),
        all_digits(t.take(d)),
        !is_digit(t[d]),
        t[d] != '.',
    ensures
        spec_dec_body(neg, t) is None,
{
    assert forall|i: int| !dot_at(t, i) by {
        if dot_at(t, i) {
            if i < d {
                assert(t.skip(i + 1)[d - i - 1] == t[d]);
            } else if i > d {
                assert(t.take(i)[d] == t[d]);
            }
        }
    }
}

/// A numeral whose fraction is empty, or is followed by junk, parses to
/// nothing.  `k` is the position right after the fraction's digits.
proof fn lemma_none_bad_frac(neg: bool, t: Seq<char>, d: int, k: int)
    requires
        1 <= d < t.len(),
        t[d] == '.',
        all_digits(t.take(d)),
        d + 1 <= k <= t.len(),
        all_digits(t.subrange(d + 1, k)),
        k == t.len() ==> k == d + 1,
        k < t.len() ==> !is_digit(t[k]),
    ensures
        spec_dec_body(neg, t) is None,
{
    assert(!is_digit(t[d]));
    assert forall|i: int| !dot_at(t, i) by {
        if dot_at(t, i) {
            if i < d {
                assert(t.skip(i + 1)[d - i - 1] == t[d]);
            } else if i > d {
                assert(t.take(i)[d] == t[d]);
            } else {
                if k < t.len() {
                    assert(t.skip(d + 1)[k - d - 1] == t[k]);
                }
            }
        }
    }
}

/// A numeral with a legal dot parses as the second shape says.
proof fn lemma_dot_result(neg: bool, t: Seq<char>, d: int)
    requires
        dot_at(t, d),
    ensures
        spec_dec_body(neg, t) == {
            let digits = dec_digits(t, d);
            if digits_val(digits) <= u64::MAX && t.len() - d - 1 <= u32::MAX {
                Some(
                    Decimal {
                        neg,
                        mantissa: digits_val(digits) as u64,
                        scale: (t.len() - d - 1) as u32,
                    },
                )
            } else {
                None
            }
        },
{
    assert(!is_digit(t[d]));
    assert(!all_digits(t));
    let i0 = choose|i: int| dot_at(t, i);
    assert(dot_at(t, d));
    lemma_dot_unique(t, i0, d);
}

/// What a numeral parses to.  The accepted shapes are `digits` and
/// `digits . digits`, with an optional leading minus sign; anything else,
/// and any mantissa that does not fit in 64 bits, is rejected.
pub open spec fn spec_parse_dec(s: Seq<char>) -> Option<Decimal> {
    let neg = s.len() > 0 && s[0] == '-';
    let t = if neg {
        s.skip(1)
    } else {
        s
    };
    spec_dec_body(neg, t)
}

/// What the numeral after the optional sign parses to.
pub open spec fn spec_dec_body(neg: bool, t: Seq<char>) -> Option<Decimal> {
    if t.len() > 0 && all_digits(t) {
        if digits_val(t) <= u64::MAX {
            Some(Decimal { neg, mantissa: digits_val(t) as u64, scale: 0 })
        } else {
            None
        }
    } else if exists|i: int| dot_at(t, i) {
        let i = choose|i: int| dot_at(t, i);
        let digits = dec_digits(t, i);
        if digits_val(digits) <= u64::MAX && t.len() - i - 1 <= u32::MAX {
            Some(
                Decimal {
                    neg,
                    mantissa: digits_val(digits) as u64,
                    scale: (t.len() - i - 1) as u32,
                },
            )
        } else {
            None
        }
    } else {
        None
    }
}

/// What a numeral parses to as an unsigned 32-bit quantity: digits only.
pub open spec fn spec_parse_u32(s: Seq<char>) -> Option<u32> {
    if s.len() > 0 && all_digits(s) && digits_val(s) <= u32::MAX {
        Some(digits_val(s) as u32)
    } else {
        None
    }
}

/// What a numeral parses to as a signed 32-bit quantity: digits with an
/// optional leading minus sign.
pub open spec fn spec_parse_i32(s: Seq<char>) -> Option<i32> {
    let neg = s.len() > 0 && s[0] == '-';
    let t = if neg {
        s.skip(1)
    } else {
        s
    };
    if t.len() > 0 && all_digits(t) {
        if neg && digits_val(t) <= 0x8000_0000 {
            Some((-digits_val(t)) as i32)
        } else if !neg && digits_val(t) <= i32::MAX {
            Some(digits_val(t) as i32)
        } else {
            None
        }
    } else {
        None
    }
}

/// The digit value of the character, or `None` where it is no digit.
fn digit_of(c: char) -> (r: Option<u64>)
    ensures
        match r {
            Some(d) => is_digit(c) && d == digit_val(c),
            None => !is_digit(c),
        },
{
    let u = c as u32;
    if 48 <= u && u <= 57 {
        Some((u - 48) as u64)
    } else {
        None
    }
}

/// Reads the digits of `s` from position `from` to the end as a base-10
/// numeral that fits in 64 bits.
fn parse_digits(s: &str, from: usize, n: usize) -> (r: Option<u64>)
    requires
        from <= n == s@.len(),
    ensures
        match r {
            Some(v) => {
                &&& from < n
                &&& all_digits(s@.skip(from as int))
                &&& v == digits_val(s@.skip(from as int))
            },
            None => {
                let t = s@.skip(from as int);
                !(from < n && all_digits(t) && digits_val(t) <= u64::MAX)
            },
        },
{
    let ghost t = s@.skip(from as int);
    if from >= n {
        return None;
    }
    let mut mant: u64 = 0;
    let mut p: usize = from;
    while p < n
        invariant
            from <= p <= n == s@.len(),
            t == s@.skip(from as int),
            all_digits(t.take(p - from)),
            mant == digits_val(t.take(p - from)),
        decreases n - p,
    {
        let c = s.get_char(p);
        assert(t[p - from] == s@[p as int]);
        match digit_of(c) {
            None => {
                assert(!is_digit(t[p - from]));
                return None;
            },
            Some(d) => {
                let ghost seen = t.take(p - from);
                assert(seen.push(c) =~= t.take(p - from + 1));
                assert(digits_val(seen.push(c)) == mant * 10 + d) by {
                    assert(seen.push(c).drop_last() =~= seen);
                }
                match mant.checked_mul(10) {
                    None => {
                        proof {
                            overflow_means_too_big(t, p - from + 1, u64::MAX as int);
                        }
                        return None;
                    },
                    Some(m10) => {
                        match m10.checked_add(d) {
                            None => {
                                proof {
                                    overflow_means_too_big(t, p - from + 1, u64::MAX as int);
                                }
                                return None;
                            },
                            Some(m) => {
                                mant = m;
                            },
                        }
                    },
                }
            },
        }
        p += 1;
    }
    assert(t.take(n - from) =~= t);
    Some(mant)
}

/// Within `parse_digits`: once some prefix of the digits is already past the
/// bound, the whole numeral is past the bound, or some later character is no
/// digit at all.
proof fn overflow_means_too_big(t: Seq<char>, k: int, bound: int)
    requires
        0 <= k <= t.len(),
        all_digits(t.take(k)),
        digits_val(t.take(k)) > bound,
    ensures
        !(all_digits(t) && digits_val(t) <= bound),
{
    if all_digits(t) {
        lemma_digits_val_prefix(t, k);
    }
}

/// Returns the first position at or after `from` that holds no digit.
fn scan_digits(s: &str, from: usize, n: usize) -> (j: usize)
    requires
        from <= n == s@.len(),
    ensures
        from <= j <= n,
        all_digits(s@.subrange(from as int, j as int)),
        j < n ==> !is_digit(s@[j as int]),
{
    let mut j: usize = from;
    while j < n
        invariant
            from <= j <= n == s@.len(),
            all_digits(s@.subrange(from as int, j as int)),
        decreases n - j,
    {
        let c = s.get_char(j);
        if digit_of(c).is_none() {
            return j;
        }
        assert(all_digits(s@.subrange(from as int, j + 1 as int))) by {
            let pre = s@.subrange(from as int, j as int);
            let cur = s@.subrange(from as int, j + 1 as int);
            assert(forall|i: int| 0 <= i < cur.len() ==> is_digit(#[trigger] cur[i])) by {
                assert(forall|i: int| 0 <= i < pre.len() ==> is_digit(#[trigger] pre[i]));
                assert(forall|i: int| 0 <= i < cur.len() - 1 ==> cur[i] == pre[i]);
                assert(cur[cur.len() - 1] == c);
            }
        }
        j += 1;
    }
    j
}

/// Folds the digits of `s` between `from` and `to` onto the numeral already
/// read, whose digits are `pre`.
fn accum_digits(s: &str, from: usize, to: usize, init: u64, Ghost(pre): Ghost<Seq<char>>) -> (r:
    Option<u64>)
    requires
        from <= to <= s@.len(),
        all_digits(s@.subrange(from as int, to as int)),
        all_digits(pre),
        init == digits_val(pre),
    ensures
        ({
            let whole = pre + s@.subrange(from as int, to as int);
            match r {
                Some(v) => v == digits_val(whole),
                None => digits_val(whole) > u64::MAX,
            }
        }),
{
    let ghost sub = s@.subrange(from as int, to as int);
    let ghost whole = pre + sub;
    proof {
        assert(all_digits(whole)) by {
            assert(forall|i: int|
                0 <= i < whole.len() ==> is_digit(#[trigger] whole[i])) by {
                assert(forall|i: int| 0 <= i < pre.len() ==> is_digit(#[trigger] pre[i]));
                assert(forall|i: int| 0 <= i < sub.len() ==> is_digit(#[trigger] sub[i]));
                assert(forall|i: int|
                    pre.len() <= i < whole.len() ==> whole[i] == sub[i - pre.len()]);
            }
        }
    }
    let mut mant: u64 = init;
    let mut p: usize = from;
    while p < to
        invariant
            from <= p <= to <= s@.len(),
            sub == s@.subrange(from as int, to as int),
            whole == pre + sub,
            all_digits(whole),
            all_digits(sub),
            mant == digits_val(pre + sub.take(p - from)),
        decreases to - p,
    {
        let c = s.get_char(p);
        assert(is_digit(c)) by {
            assert(sub[p - from] == s@[p as int]);
        }
        let d = digit_of(c).unwrap();
        let ghost seen = pre + sub.take(p - from);
        assert(seen.push(c) =~= pre + sub.take(p - from + 1));
        assert(digits_val(seen.push(c)) == mant * 10 + d) by {
            assert(seen.push(c).drop_last() =~= seen);
        }
        proof {
            assert(whole.take(pre.len() + (p - from) + 1) =~= seen.push(c));
        }
        let m10 = match mant.checked_mul(10) {
            Some(m10) => m10,
            None => {
                proof {
                    assert(digit_val(c) >= 0);
                    too_big_whole(whole, pre.len() + (p - from) + 1);
                }
                return None;
            },
        };
        let m = match m10.checked_add(d) {
            Some(m) => m,
            None => {
                proof {
                    too_big_whole(whole, pre.len() + (p - from) + 1);
                }
                return None;
            },
        };
        mant = m;
        p += 1;
    }
    assert(pre + sub.take(to - from) =~= whole);
    Some(mant)
}

/// Within `accum_digits`: the prefix of the digits up to `k` is already past
/// `u64::MAX`, so the whole numeral is too.
proof fn too_big_whole(whole: Seq<char>, k: int)
    requires
        all_digits(whole),
        0 <= k <= whole.len(),
        digits_val(whole.take(k)) > u64::MAX,
    ensures
        digits_val(whole) > u64::MAX,
{
    lemma_digits_val_prefix(whole, k);
}

/// Parses a numeral of the shape `-? digits (. digits)?`.
#[verifier::rlimit(100)]
pub fn parse_decimal(s: &str) -> (r: Option<Decimal>)
    ensures
        r == spec_parse_dec(s@),
{
    let n = s.unicode_len();
    let neg = n > 0 && s.get_char(0) == '-';
    let start: usize = if neg {
        1
    } else {
        0
    };
    let ghost t = if neg {
        s@.skip(1)
    } else {
        s@
    };
    proof {
        assert(t =~= s@.skip(start as int));
    }
    let j = scan_digits(s, start, n);
    proof {
        assert(t.take(j - start) =~= s@.subrange(start as int, j as int));
    }
    if j == start {
        proof {
            lemma_none_no_intdigits(neg, t);
        }
        return None;
    }
    if j == n {
        // plain integer numeral
        assert(all_digits(t)) by {
            assert(t.take(j - start) =~= t);
        }
        match accum_digits(s, start, n, 0, Ghost(Seq::empty())) {
            Some(v) => {
                assert(Seq::empty() + s@.subrange(start as int, n as int) =~= t);
                return Some(Decimal { neg, mantissa: v, scale: 0 });
            },
            None => {
                assert(Seq::empty() + s@.subrange(start as int, n as int) =~= t);
                return None;
            },
        }
    }
    let ghost d = j - start;
    proof {
        assert(t[d] == s@[j as int]);
        assert(t.take(d) =~= s@.subrange(start as int, j as int));
    }
    let c = s.get_char(j);
    if c != '.' {
        proof {
            lemma_none_bad_break(neg, t, d);
        }
        return None;
    }
    let k = scan_digits(s, j + 1, n);
    proof {
        assert(t.subrange(d + 1, k - start) =~= s@.subrange(j + 1 as int, k as int));
    }
    if k == j + 1 || k < n {
        proof {
            if k < n {
                assert(t[k - start] == s@[k as int]);
            }
            lemma_none_bad_frac(neg, t, d, k - start);
        }
        return None;
    }
    // shape is `digits . digits`
    proof {
        assert(dot_at(t, d)) by {
            assert(t.skip(d + 1) =~= s@.subrange(j + 1 as int, n as int));
        }
        lemma_dot_result(neg, t, d);
    }
    let intval = match accum_digits(s, start, j, 0, Ghost(Seq::empty())) {
        Some(v) => v,
        None => {
            proof {
                no_room_in_intpart(t, d);
            }
            return None;
        },
    };
    proof {
        assert(Seq::empty() + s@.subrange(start as int, j as int) =~= t.take(d));
        assert(t.take(d) + s@.subrange(j + 1 as int, n as int) =~= dec_digits(t, d));
    }
    let mant = match accum_digits(s, j + 1, n, intval, Ghost(t.take(d))) {
        Some(v) => v,
        None => {
            return None;
        },
    };
    let scale_usize = n - j - 1;
    if scale_usize > u32::MAX as usize {
        return None;
    }
    Some(Decimal { neg, mantissa: mant, scale: scale_usize as u32 })
}

/// Within `parse_decimal`: if even the integer digits overflow, the whole
/// numeral's digits do.
proof fn no_room_in_intpart(t: Seq<char>, d: int)
    requires
        dot_at(t, d),
        digits_val(t.take(d)) > u64::MAX,
    ensures
        digits_val(dec_digits(t, d)) > u64::MAX,
{
    let digits = dec_digits(t, d);
    assert(all_digits(digits)) by {
        assert(forall|i: int|
            0 <= i < digits.len() ==> is_digit(#[trigger] digits[i])) by {
            let a = t.take(d);
            let b = t.skip(d + 1);
            assert(forall|i: int| 0 <= i < a.len() ==> is_digit(#[trigger] a[i]));
            assert(forall|i: int| 0 <= i < b.len() ==> is_digit(#[trigger] b[i]));
            assert(forall|i: int| 0 <= i < a.len() ==> digits[i] == a[i]);
            assert(forall|i: int| a.len() <= i < digits.len() ==> digits[i] == b[i - a.len()]);
        }
    }
    assert(digits.take(d) =~= t.take(d));
    lemma_digits_val_prefix(digits, d);
}

/// Parses a numeral of the shape `digits` as an unsigned 32-bit quantity.
pub fn parse_u32(s: &str) -> (r: Option<u32>)
    ensures
        r == spec_parse_u32(s@),
{
    let n = s.unicode_len();
    assert(s@.skip(0) =~= s@);
    match parse_digits(s, 0, n) {
        Some(v) => {
            if v <= u32::MAX as u64 {
                Some(v as u32)
            } else {
                None
            }
        },
        None => None,
    }
}

/// Parses a numeral of the shape `-? digits` as a signed 32-bit quantity.
pub fn parse_i32(s: &str) -> (r: Option<i32>)
    ensures
        r == spec_parse_i32(s@),
{
    let n = s.unicode_len();
    let neg = n > 0 && s.get_char(0) == '-';
    let start: usize = if neg {
        1
    } else {
        0
    };
    let ghost t = if neg {
        s@.skip(1)
    } else {
        s@
    };
    assert(t =~= s@.skip(start as int));
    match parse_digits(s, start, n) {
        Some(v) => {
            if neg {
                if v <= 0x8000_0000u64 {
                    Some((-(v as i64)) as i32)
                } else {
                    None
                }
            } else {
                if v <= i32::MAX as u64 {
                    Some(v as i32)
                } else {
                    None
                }
            }
        },
        None => None,
    }
}

} // verus!
