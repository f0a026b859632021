//! Building JSON text.
//!
//! The control frames and the order request bodies are JSON texts the
//! library writes itself.  [`JsonBuf`] accumulates characters; what each
//! step appends is pinned down against the spec functions here.

use vstd::prelude::*;
use vstd::string::StrSliceExecFns;
use crate::num::Decimal;
use crate::text::chars_to_string;

verus! {

broadcast use vstd::std_specs::vec::group_vec_axioms, vstd::seq::group_seq_axioms;

/// The digit character of a value below 16, with letters in lower case.
pub open spec fn spec_hex_char(n: int) -> char {
    if n == 0 {
        '0'
    } else if n == 1 {
        '1'
    } else if n == 2 {
        '2'
    } else if n == 3 {
        '3'
    } else if n == 4 {
        '4'
    } else if n == 5 {
        '5'
    } else if n == 6 {
        '6'
    } else if n == 7 {
        '7'
    } else if n == 8 {
        '8'
    } else if n == 9 {
        '9'
    } else if n == 10 {
        'a'
    } else if n == 11 {
        'b'
    } else if n == 12 {
        'c'
    } else if n == 13 {
        'd'
    } else if n == 14 {
        'e'
    } else {
        'f'
    }
}

/// The digit character of a value below 16.
fn hex_char(n: u64) -> (r: char)
    requires
        n < 16,
    ensures
        r == spec_hex_char(n as int),
{
    if n == 0 {
        '0'
    } else if n == 1 {
        '1'
    } else if n == 2 {
        '2'
    } else if n == 3 {
        '3'
    } else if n == 4 {
        '4'
    } else if n == 5 {
        '5'
    } else if n == 6 {
        '6'
    } else if n == 7 {
        '7'
    } else if n == 8 {
        '8'
    } else if n == 9 {
        '9'
    } else if n == 10 {
        'a'
    } else if n == 11 {
        'b'
    } else if n == 12 {
        'c'
    } else if n == 13 {
        'd'
    } else if n == 14 {
        'e'
    } else {
        'f'
    }
}

/// How one character stands inside a JSON string literal: quotes and
/// backslashes are escaped, control characters written as `\u00..`.
pub open spec fn spec_escape_char(c: char) -> Seq<char> {
    if c == '"' {
        seq!['\\', '"']
    } else if c == '\\' {
        seq!['\\', '\\']
    } else if (c as int) < 32 {
        seq!['\\', 'u', '0', '0', spec_hex_char(c as int / 16), spec_hex_char(c as int % 16)]
    } else {
        seq![c]
    }
}

/// How a text stands inside a JSON string literal.
pub open spec fn spec_escape(s: Seq<char>) -> Seq<char>
    decreases s.len(),
{
    if s.len() == 0 {
        Seq::empty()
    } else {
        spec_escape_char(s[0]) + spec_escape(s.skip(1))
    }
}

/// Escaping a text one character longer appends that character's escape.
pub proof fn lemma_escape_push(s: Seq<char>, c: char)
    ensures
        spec_escape(s.push(c)) == spec_escape(s) + spec_escape_char(c),
    decreases s.len(),
{
    if s.len() == 0 {
        assert(s.push(c)[0] == c);
        assert(s.push(c).skip(1) =~= Seq::<char>::empty());
        assert(spec_escape(s.push(c)) == spec_escape_char(c) + spec_escape(
            Seq::<char>::empty(),
        ));
        assert(spec_escape_char(c) + Seq::<char>::empty() =~= spec_escape_char(c));
        assert(spec_escape(s) + spec_escape_char(c) =~= spec_escape_char(c));
    } else {
        assert(s.push(c)[0] == s[0]);
        assert(s.push(c).skip(1) =~= s.skip(1).push(c));
        lemma_escape_push(s.skip(1), c);
        assert(spec_escape(s.push(c)) == spec_escape_char(s[0]) + (spec_escape(s.skip(1))
            + spec_escape_char(c)));
        assert(spec_escape_char(s[0]) + (spec_escape(s.skip(1)) + spec_escape_char(c)) =~= (
        spec_escape_char(s[0]) + spec_escape(s.skip(1))) + spec_escape_char(c));
    }
}

/// A JSON string literal: the escaped text between quotes.
pub open spec fn spec_json_str(s: Seq<char>) -> Seq<char> {
    seq!['"'] + spec_escape(s) + seq!['"']
}

/// The decimal digits of an unsigned value.
pub open spec fn spec_u64_digits(n: nat) -> Seq<char>
    decreases n,
{
    if n < 10 {
        seq![spec_hex_char(n as int)]
    } else {
        spec_u64_digits(n / 10) + seq![spec_hex_char((n % 10) as int)]
    }
}

/// The text of a decimal: the mantissa's digits with the dot placed
/// `scale` digits from the right, a zero integer part written out, and the
/// sign in front.
pub open spec fn spec_dec_str(d: Decimal) -> Seq<char> {
    let digits = spec_u64_digits(d.mantissa as nat);
    let sign: Seq<char> = if d.neg {
        seq!['-']
    } else {
        Seq::empty()
    };
    if d.scale == 0 {
        sign + digits
    } else if digits.len() > d.scale {
        sign + digits.take(digits.len() - d.scale) + seq!['.'] + digits.skip(
            digits.len() - d.scale,
        )
    } else {
        sign + seq!['0', '.'] + Seq::new((d.scale - digits.len()) as nat, |i: int| '0') + digits
    }
}

/// A buffer that a JSON text grows in.
pub struct JsonBuf {
    chars: Vec<char>,
}

impl View for JsonBuf {
    type V = Seq<char>;

    closed spec fn view(&self) -> Seq<char> {
        self.chars@
    }
}

impl JsonBuf {
    /// An empty buffer.
    pub fn new() -> (r: JsonBuf)
        ensures
            r@ == Seq::<char>::empty(),
    {
        JsonBuf { chars: Vec::new() }
    }

    /// Appends the literal's characters as they stand.
    pub fn lit(&mut self, piece: &str)
        ensures
            final(self)@ == old(self)@ + piece@,
    {
        let n = piece.unicode_len();
        let mut i: usize = 0;
        while i < n
            invariant
                i <= n == piece@.len(),
                self.chars@ == old(self).chars@ + piece@.take(i as int),
            decreases n - i,
        {
            self.chars.push(piece.get_char(i));
            proof {
                assert(old(self).chars@ + piece@.take(i + 1) =~= (old(self).chars@ + piece@.take(
                    i as int,
                )).push(piece@[i as int]));
            }
            i += 1;
        }
        proof {
            assert(piece@.take(n as int) =~= piece@);
        }
    }

    /// Appends the text as a JSON string literal, quoted and escaped.
    pub fn str_val(&mut self, s: &str)
        ensures
            final(self)@ == old(self)@ + spec_json_str(s@),
    {
        self.chars.push('"');
        let n = s.unicode_len();
        let mut i: usize = 0;
        while i < n
            invariant
                i <= n == s@.len(),
                self.chars@ == old(self).chars@ + seq!['"'] + spec_escape(s@.take(i as int)),
            decreases n - i,
        {
            let c = s.get_char(i);
            let u = c as u32;
            if c == '"' {
                self.chars.push('\\');
                self.chars.push('"');
            } else if c == '\\' {
                self.chars.push('\\');
                self.chars.push('\\');
            } else if u < 32 {
                self.chars.push('\\');
                self.chars.push('u');
                self.chars.push('0');
                self.chars.push('0');
                self.chars.push(hex_char((u / 16) as u64));
                self.chars.push(hex_char((u % 16) as u64));
            } else {
                self.chars.push(c);
            }
            proof {
                lemma_escape_push(s@.take(i as int), c);
                assert(s@.take(i + 1) =~= s@.take(i as int).push(c));
                assert(self.chars@ =~= old(self).chars@ + seq!['"'] + spec_escape(s@.take(i + 1)));
            }
            i += 1;
        }
        self.chars.push('"');
        proof {
            assert(s@.take(n as int) =~= s@);
            assert(self.chars@ =~= old(self).chars@ + spec_json_str(s@));
        }
    }

    /// Appends the digits of an unsigned value.
    pub fn u64_val(&mut self, n: u64)
        ensures
            final(self)@ == old(self)@ + spec_u64_digits(n as nat),
        decreases n,
    {
        if n < 10 {
            self.chars.push(hex_char(n));
            assert(final(self).chars@ =~= old(self).chars@ + spec_u64_digits(n as nat));
        } else {
            self.u64_val(n / 10);
            self.chars.push(hex_char(n % 10));
            assert(final(self).chars@ =~= old(self).chars@ + spec_u64_digits(n as nat));
        }
    }

    /// The text of a signed value: the sign, then the digits.
    pub open spec fn spec_i64_digits(n: int) -> Seq<char> {
        if n < 0 {
            seq!['-'] + spec_u64_digits((-n) as nat)
        } else {
            spec_u64_digits(n as nat)
        }
    }

    /// Appends the digits of a signed value.
    pub fn i64_val(&mut self, n: i64)
        ensures
            final(self)@ == old(self)@ + Self::spec_i64_digits(n as int),
    {
        if n < 0 {
            self.chars.push('-');
            let m = if n == i64::MIN {
                9223372036854775808u64
            } else {
                (-n) as u64
            };
            self.u64_val(m);
            assert(final(self).chars@ =~= old(self).chars@ + Self::spec_i64_digits(n as int));
        } else {
            self.u64_val(n as u64);
        }
    }

    /// Appends the text of a decimal.
    pub fn dec_val(&mut self, d: &Decimal)
        ensures
            final(self)@ == old(self)@ + spec_dec_str(*d),
    {
        let ghost digits_spec = spec_u64_digits(d.mantissa as nat);
        if d.neg {
            self.chars.push('-');
        }
        if d.scale == 0 {
            self.u64_val(d.mantissa);
            assert(final(self).chars@ =~= old(self).chars@ + spec_dec_str(*d));
            return ;
        }
        let mut digits = JsonBuf::new();
        digits.u64_val(d.mantissa);
        proof {
            assert(Seq::<char>::empty() + digits_spec =~= digits_spec);
        }
        let m = digits.chars.len();
        let scale = d.scale as usize;
        if m > scale {
            let cut = m - scale;
            let ghost mark = self.chars@;
            let mut k: usize = 0;
            while k < cut
                invariant
                    k <= cut <= m == digits.chars@.len(),
                    digits.chars@ == digits_spec,
                    self.chars@ == mark + digits_spec.take(k as int),
                decreases cut - k,
            {
                self.chars.push(digits.chars[k]);
                proof {
                    assert(mark + digits_spec.take(k + 1) =~= (mark + digits_spec.take(
                        k as int,
                    )).push(digits_spec[k as int]));
                }
                k += 1;
            }
            self.chars.push('.');
            let ghost mark2 = self.chars@;
            let mut k2: usize = cut;
            while k2 < m
                invariant
                    cut <= k2 <= m == digits.chars@.len(),
                    digits.chars@ == digits_spec,
                    self.chars@ == mark2 + digits_spec.subrange(cut as int, k2 as int),
                decreases m - k2,
            {
                self.chars.push(digits.chars[k2]);
                proof {
                    assert(mark2 + digits_spec.subrange(cut as int, k2 + 1) =~= (mark2
                        + digits_spec.subrange(cut as int, k2 as int)).push(
                        digits_spec[k2 as int],
                    ));
                }
                k2 += 1;
            }
            proof {
                assert(digits_spec.subrange(cut as int, m as int) =~= digits_spec.skip(
                    digits_spec.len() - d.scale,
                ));
                assert(digits_spec.take(cut as int) =~= digits_spec.take(
                    digits_spec.len() - d.scale,
                ));
                assert(self.chars@ =~= old(self).chars@ + spec_dec_str(*d));
            }
        } else {
            self.chars.push('0');
            self.chars.push('.');
            let pad = scale - m;
            let ghost mark = self.chars@;
            let mut k: usize = 0;
            while k < pad
                invariant
                    k <= pad,
                    self.chars@ == mark + Seq::new(k as nat, |i: int| '0'),
                decreases pad - k,
            {
                self.chars.push('0');
                proof {
                    assert(mark + Seq::new((k + 1) as nat, |i: int| '0') =~= (mark + Seq::new(
                        k as nat,
                        |i: int| '0',
                    )).push('0'));
                }
                k += 1;
            }
            let ghost mark2 = self.chars@;
            let mut k2: usize = 0;
            while k2 < m
                invariant
                    k2 <= m == digits.chars@.len(),
                    digits.chars@ == digits_spec,
                    self.chars@ == mark2 + digits_spec.take(k2 as int),
                decreases m - k2,
            {
                self.chars.push(digits.chars[k2]);
                proof {
                    assert(mark2 + digits_spec.take(k2 + 1) =~= (mark2 + digits_spec.take(
                        k2 as int,
                    )).push(digits_spec[k2 as int]));
                }
                k2 += 1;
            }
            proof {
                assert(digits_spec.take(m as int) =~= digits_spec);
                assert(self.chars@ =~= old(self).chars@ + spec_dec_str(*d));
            }
        }
    }

    /// Appends another buffer's text with its first character dropped; an
    /// empty buffer appends nothing.  It joins pieces that each start with
    /// their separator.
    pub fn append_skip_first(&mut self, other: &JsonBuf)
        ensures
            other@.len() == 0 ==> final(self)@ == old(self)@,
            other@.len() > 0 ==> final(self)@ == old(self)@ + other@.skip(1),
    {
        let m = other.chars.len();
        if m == 0 {
            return ;
        }
        proof {
            assert(old(self).chars@ + other.chars@.subrange(1, 1) =~= old(self).chars@);
        }
        let mut k: usize = 1;
        while k < m
            invariant
                1 <= k <= m == other.chars@.len(),
                self.chars@ == old(self).chars@ + other.chars@.subrange(1, k as int),
            decreases m - k,
        {
            self.chars.push(other.chars[k]);
            proof {
                assert(old(self).chars@ + other.chars@.subrange(1, k + 1) =~= (old(self).chars@
                    + other.chars@.subrange(1, k as int)).push(other.chars@[k as int]));
            }
            k += 1;
        }
        proof {
            assert(other.chars@.subrange(1, m as int) =~= other.chars@.skip(1));
        }
    }

    /// Hands the finished text over as a string.
    pub fn finish(&self) -> (r: String)
        ensures
            r@ == self@,
    {
        chars_to_string(&self.chars)
    }
}

} // verus!
