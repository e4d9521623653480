//! Reading numbers from text.

use vstd::prelude::*;
use crate::number::literal::{float_literal, is_float_literal};
use crate::number::{FromStrError, Inner, IntError, Number, Parsed};
use crate::text::{chars_of, string_of, strip_separators, trim, trimmed, without_separators};

verus! {

/// The value of `c` as a digit: 0 to 9 for `0` to `9`, 10 to 35 for the
/// letters in either case, and 36 for any other character.
pub open spec fn digit_value(c: char) -> int {
    let u = c as u32 as int;
    if 48 <= u <= 57 {
        u - 48
    } else if 97 <= u <= 122 {
        u - 87
    } else if 65 <= u <= 90 {
        u - 55
    } else {
        36
    }
}

/// Whether `c` is a digit of `radix`.
pub open spec fn is_digit(c: char, radix: u32) -> bool {
    digit_value(c) < radix
}

/// The number that the digits `s` write in `radix`, most significant first.
pub open spec fn magnitude(s: Seq<char>, radix: int) -> int
    decreases s.len(),
{
    if s.len() == 0 {
        0
    } else {
        magnitude(s.drop_last(), radix) * radix + digit_value(s.last())
    }
}

/// How many characters at the start of `s` are digits of `radix`.
pub open spec fn leading_digits(s: Seq<char>, radix: u32) -> nat
    decreases s.len(),
{
    if s.len() > 0 && is_digit(s[0], radix) {
        1 + leading_digits(s.skip(1), radix)
    } else {
        0
    }
}

/// The integer that `s` writes in `radix`: an optional sign, then one or
/// more digits, with a value that fits `i64`. Of a text that runs out of
/// range before its first character that is no digit, the error is the
/// overflow.
pub open spec fn parse_integer(s: Seq<char>, radix: u32) -> Result<i64, IntError> {
    if s.len() == 0 {
        Err(IntError::Empty)
    } else {
        let negative = s[0] == '-';
        let body = if s[0] == '-' || s[0] == '+' {
            s.skip(1)
        } else {
            s
        };
        let digits = body.take(leading_digits(body, radix) as int);
        let m = magnitude(digits, radix as int);
        if body.len() == 0 {
            Err(IntError::InvalidDigit)
        } else if negative && m > 0x8000_0000_0000_0000 {
            Err(IntError::NegOverflow)
        } else if !negative && m > 0x7fff_ffff_ffff_ffff {
            Err(IntError::PosOverflow)
        } else if digits.len() < body.len() {
            Err(IntError::InvalidDigit)
        } else if negative {
            Ok((-m) as i64)
        } else {
            Ok(m as i64)
        }
    }
}

/// The text of a number literal once digit separators and the white space
/// around it are gone.
pub open spec fn clean(s: Seq<char>) -> Seq<char> {
    trim(strip_separators(s))
}

/// If the first `k` characters are digits and the next one, if any, is
/// not, then `k` is the count of leading digits.
pub(crate) proof fn lemma_leading_exact(s: Seq<char>, radix: u32, k: int)
    requires
        0 <= k <= s.len(),
        forall|j: int| 0 <= j < k ==> is_digit(#[trigger] s[j], radix),
        k == s.len() || !is_digit(s[k], radix),
    ensures
        leading_digits(s, radix) == k,
    decreases k,
{
    if k > 0 {
        let t = s.skip(1);
        assert forall|j: int| 0 <= j < k - 1 implies is_digit(#[trigger] t[j], radix) by {
            assert(t[j] == s[j + 1]);
        }
        lemma_leading_exact(t, radix, k - 1);
    }
}

/// If the first `k` characters are digits, at least `k` leading digits
/// are counted, and never more than there are characters.
proof fn lemma_leading_at_least(s: Seq<char>, radix: u32, k: int)
    requires
        0 <= k <= s.len(),
        forall|j: int| 0 <= j < k ==> is_digit(#[trigger] s[j], radix),
    ensures
        k <= leading_digits(s, radix) <= s.len(),
    decreases s.len(),
{
    if s.len() > 0 && is_digit(s[0], radix) {
        let t = s.skip(1);
        if k > 0 {
            assert forall|j: int| 0 <= j < k - 1 implies is_digit(#[trigger] t[j], radix) by {
                assert(t[j] == s[j + 1]);
            }
            lemma_leading_at_least(t, radix, k - 1);
        } else {
            lemma_leading_at_least(t, radix, 0);
        }
    }
}

/// A longer prefix writes a number that is no smaller.
proof fn lemma_magnitude_monotone(s: Seq<char>, radix: int, a: int, b: int)
    requires
        0 <= a <= b <= s.len(),
        radix >= 1,
    ensures
        0 <= magnitude(s.take(a), radix) <= magnitude(s.take(b), radix),
    decreases b,
{
    if b == 0 {
        assert(s.take(a) =~= s.take(b));
    } else if a == b {
        lemma_magnitude_monotone(s, radix, a - 1, b - 1);
        assert(s.take(b).drop_last() =~= s.take(b - 1));
        let m = magnitude(s.take(b - 1), radix);
        assert(m * radix >= 0) by (nonlinear_arith)
            requires
                m >= 0,
                radix >= 1,
        ;
    } else {
        lemma_magnitude_monotone(s, radix, a, b - 1);
        assert(s.take(b).drop_last() =~= s.take(b - 1));
        let m = magnitude(s.take(b - 1), radix);
        assert(m * radix >= m) by (nonlinear_arith)
            requires
                m >= 0,
                radix >= 1,
        ;
    }
}

/// One more digit multiplies what is written by the radix and adds the
/// digit.
proof fn lemma_magnitude_step(s: Seq<char>, radix: int, k: int)
    requires
        0 <= k < s.len(),
    ensures
        magnitude(s.take(k + 1), radix) == magnitude(s.take(k), radix) * radix + digit_value(s[k]),
{
    assert(s.take(k + 1).drop_last() =~= s.take(k));
}

/// The value of `c` as a digit, 36 where it is none.
pub(crate) fn digit_of(c: char) -> (d: u32)
    ensures
        d == digit_value(c),
{
    let u: u32 = c as u32;
    if 48 <= u && u <= 57 {
        u - 48
    } else if 97 <= u && u <= 122 {
        u - 87
    } else if 65 <= u && u <= 90 {
        u - 55
    } else {
        36
    }
}

/// Reads the integer that the characters write in `radix`.
fn parse_chars(v: &Vec<char>, radix: u32) -> (r: Result<i64, IntError>)
    requires
        2 <= radix <= 36,
    ensures
        r == parse_integer(v@, radix),
{
    let n = v.len();
    if n == 0 {
        return Err(IntError::Empty);
    }
    let negative = v[0] == '-';
    let start: usize = if v[0] == '-' || v[0] == '+' {
        1
    } else {
        0
    };
    if start == n {
        return Err(IntError::InvalidDigit);
    }
    let limit: u64 = if negative {
        0x8000_0000_0000_0000
    } else {
        0x7fff_ffff_ffff_ffff
    };
    let ghost body = v@.skip(start as int);
    assert(v@.skip(0) =~= v@);
    assert(body.take(0) =~= Seq::<char>::empty());
    let mut mag: u64 = 0;
    let mut i: usize = start;
    while i < n
        invariant
            2 <= radix <= 36,
            n == v.len(),
            start <= i <= n,
            body == v@.skip(start as int),
            forall|k: int| 0 <= k < i - start ==> is_digit(#[trigger] body[k], radix),
            mag == magnitude(body.take(i - start), radix as int),
            mag <= limit,
            n > 0,
            v@.skip(0) == v@,
            negative == (v@[0] == '-'),
            start == if v@[0] == '-' || v@[0] == '+' { 1usize } else { 0usize },
            limit == if negative { 0x8000_0000_0000_0000u64 } else { 0x7fff_ffff_ffff_ffffu64 },
        decreases n - i,
    {
        let d = digit_of(v[i]);
        assert(body[i - start] == v@[i as int]);
        if d >= radix {
            proof {
                lemma_leading_exact(body, radix, i - start);
            }
            return Err(IntError::InvalidDigit);
        }
        assert(0 <= mag * radix <= 0x8000_0000_0000_0000 * 36) by (nonlinear_arith)
            requires
                0 <= mag <= 0x8000_0000_0000_0000,
                0 <= radix <= 36,
        ;
        let next: u128 = mag as u128 * radix as u128 + d as u128;
        proof {
            lemma_magnitude_step(body, radix as int, i - start);
        }
        if next > limit as u128 {
            proof {
                lemma_leading_at_least(body, radix, i - start + 1);
                lemma_magnitude_monotone(
                    body,
                    radix as int,
                    i - start + 1,
                    leading_digits(body, radix) as int,
                );
            }
            return Err(
                if negative {
                    IntError::NegOverflow
                } else {
                    IntError::PosOverflow
                },
            );
        }
        mag = next as u64;
        i += 1;
    }
    proof {
        lemma_leading_exact(body, radix, n - start);
        assert(body.take(n - start) =~= body);
    }
    if negative {
        if mag == 0x8000_0000_0000_0000 {
            Ok(i64::MIN)
        } else {
            Ok(-(mag as i64))
        }
    } else {
        Ok(mag as i64)
    }
}

impl Number {
    /// Reads an integer written in `radix`, with `_` between its
    /// characters and white space around it ignored. A radix outside
    /// `2..=36` is refused before the text is looked at.
    pub fn from_str_radix(inp: &str, radix: u32) -> (r: Result<Number, FromStrError>)
        ensures
            !(2 <= radix <= 36) ==> r == Err::<Number, FromStrError>(FromStrError::BadRadix(radix)),
            2 <= radix <= 36 ==> r == match parse_integer(clean(inp@), radix) {
                Ok(v) => Ok::<Number, FromStrError>(Number(Inner::Integer(v))),
                Err(e) => Err(FromStrError::BadInteger(e)),
            },
    {
        if radix < 2 || radix > 36 {
            return Err(FromStrError::BadRadix(radix));
        }
        let chars = chars_of(inp);
        let stripped = without_separators(&chars);
        let body = trimmed(&stripped);
        match parse_chars(&body, radix) {
            Ok(v) => Ok(Number(Inner::Integer(v))),
            Err(e) => Err(FromStrError::BadInteger(e)),
        }
    }

    /// Reads a number literal, with `_` between its characters and white
    /// space around it ignored. A decimal integer that fits is read as
    /// that number. For any other floating-point literal the text comes
    /// back, for the floating-point parser. Any other text is no number.
    pub fn try_from(inp: &str) -> (r: Result<Parsed, FromStrError>)
        ensures
            match parse_integer(clean(inp@), 10) {
                Ok(v) => r == Ok::<Parsed, FromStrError>(
                    Parsed::Number(Number(Inner::Integer(v))),
                ),
                Err(_) => if is_float_literal(clean(inp@)) {
                    r matches Ok(Parsed::Float(t)) && t@ == clean(inp@)
                } else {
                    r matches Err(FromStrError::BadFloat(t)) && t@ == clean(inp@)
                },
            },
    {
        let chars = chars_of(inp);
        let stripped = without_separators(&chars);
        let body = trimmed(&stripped);
        match parse_chars(&body, 10) {
            Ok(v) => Ok(Parsed::Number(Number(Inner::Integer(v)))),
            Err(_) => {
                if float_literal(&body) {
                    Ok(Parsed::Float(string_of(&body)))
                } else {
                    Err(FromStrError::BadFloat(string_of(&body)))
                }
            },
        }
    }
}

} // verus!
