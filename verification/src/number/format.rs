//! Writing numbers as text, and reading back what was written.

use vstd::prelude::*;
use vstd::arithmetic::div_mod::{lemma_fundamental_div_mod, lemma_mod_bound};
use crate::args::Args;
use crate::number::parse::{
    digit_value, is_digit, lemma_leading_exact, magnitude, parse_integer,
};
use crate::number::{Inner, IntError, NotAnInteger, Number, ToStringRadixError};
use crate::number::parse::clean;
use crate::text::{is_whitespace, string_of, strip_separators, trim};

verus! {

/// The character that writes the digit `d`: `0` to `9`, then `a` to `z`.
pub open spec fn digit_char(d: int) -> char {
    if d < 10 {
        (48 + d) as u8 as char
    } else {
        (87 + d) as u8 as char
    }
}

/// The digits of `n` in `radix`, most significant first; `0` for zero.
pub open spec fn digits(n: nat, radix: nat) -> Seq<char>
    decreases n,
{
    if radix < 2 || n < radix {
        seq![digit_char(n as int)]
    } else {
        proof {
            assert(n / radix < n) by (nonlinear_arith)
                requires
                    n >= radix,
                    radix >= 2,
            ;
        }
        digits(n / radix, radix).push(digit_char((n % radix) as int))
    }
}

/// The value of `v` read as an unsigned 64-bit pattern in two's
/// complement.
pub open spec fn unsigned(v: i64) -> nat {
    if v >= 0 {
        v as nat
    } else {
        (v + 0x1_0000_0000_0000_0000) as nat
    }
}

/// The decimal text of `v`: a `-` where it is negative, then the digits of
/// its absolute value.
pub open spec fn decimal(v: i64) -> Seq<char> {
    if v < 0 {
        seq!['-'] + digits((-v) as nat, 10)
    } else {
        digits(v as nat, 10)
    }
}

/// The digits still to come for `n`: none for zero.
spec fn pending(n: nat, radix: nat) -> Seq<char> {
    if n == 0 {
        Seq::<char>::empty()
    } else {
        digits(n, radix)
    }
}

/// The digits of a positive `n` are those of `n / radix`, where any are
/// left, and then its last digit.
proof fn lemma_digits_step(n: nat, radix: nat)
    requires
        n > 0,
        radix >= 2,
    ensures
        digits(n, radix) == pending(n / radix, radix).push(digit_char((n % radix) as int)),
{
    if n < radix {
        assert(n / radix == 0) by (nonlinear_arith)
            requires
                n < radix,
                radix >= 2,
        ;
        assert(n % radix == n) by (nonlinear_arith)
            requires
                n < radix,
                radix >= 2,
        ;
        assert(seq![digit_char(n as int)] =~= Seq::<char>::empty().push(digit_char(n as int)));
    } else {
        assert(n / radix > 0) by (nonlinear_arith)
            requires
                n >= radix,
                radix >= 2,
        ;
    }
}

/// The character that writes the digit `d`.
fn char_of_digit(d: u8) -> (c: char)
    requires
        d < 36,
    ensures
        c == digit_char(d as int),
{
    if d < 10 {
        (48 + d) as char
    } else {
        (87 + d) as char
    }
}

/// Appends the digits of `n` in `radix` to `out`.
fn push_digits(out: &mut Vec<char>, n: u64, radix: u64)
    requires
        2 <= radix <= 36,
    ensures
        final(out)@ == old(out)@ + digits(n as nat, radix as nat),
{
    let mut acc: Vec<char> = Vec::new();
    let mut rest: u64 = n / radix;
    acc.push(char_of_digit((n % radix) as u8));
    proof {
        if n > 0 {
            lemma_digits_step(n as nat, radix as nat);
        } else {
            assert(0nat / (radix as nat) == 0) by (nonlinear_arith)
                requires
                    radix >= 2,
            ;
        }
        assert(digits(n as nat, radix as nat) =~= pending(rest as nat, radix as nat) + acc@);
    }
    while rest > 0
        invariant
            2 <= radix <= 36,
            digits(n as nat, radix as nat) == pending(rest as nat, radix as nat) + acc@,
        decreases rest,
    {
        let c = char_of_digit((rest % radix) as u8);
        proof {
            lemma_digits_step(rest as nat, radix as nat);
            assert(pending(rest as nat, radix as nat) + acc@ =~= pending(
                (rest / radix) as nat,
                radix as nat,
            ) + acc@.insert(0, c));
        }
        acc.insert(0, c);
        rest = rest / radix;
    }
    let mut i: usize = 0;
    while i < acc.len()
        invariant
            i <= acc.len(),
            out@ == old(out)@ + acc@.take(i as int),
        decreases acc.len() - i,
    {
        out.push(acc[i]);
        assert(acc@.take(i as int + 1) =~= acc@.take(i as int).push(acc@[i as int]));
        assert(out@ =~= old(out)@ + acc@.take(i as int + 1));
        i += 1;
    }
    assert(acc@.take(acc.len() as int) =~= acc@);
    assert(pending(0, radix as nat) + acc@ =~= acc@);
}

/// The value of `v` read as an unsigned 64-bit pattern.
fn to_unsigned(v: i64) -> (u: u64)
    ensures
        u == unsigned(v),
{
    if v >= 0 {
        v as u64
    } else {
        ((v - i64::MIN) as u64) + 0x8000_0000_0000_0000u64
    }
}

/// The absolute value of `v`, which for `i64::MIN` does not fit `i64`.
fn unsigned_abs(v: i64) -> (u: u64)
    ensures
        v >= 0 ==> u == v,
        v < 0 ==> u == -v,
{
    if v >= 0 {
        v as u64
    } else {
        ((-(v + 1)) as u64) + 1
    }
}

/// The decimal text of `v`.
fn decimal_text(v: i64) -> (s: String)
    ensures
        s@ == decimal(v),
{
    let mut out: Vec<char> = Vec::new();
    if v < 0 {
        out.push('-');
    }
    push_digits(&mut out, unsigned_abs(v), 10);
    proof {
        if v < 0 {
            assert(out@ =~= seq!['-'] + digits((-v) as nat, 10));
        } else {
            assert(out@ =~= digits(v as nat, 10));
        }
    }
    string_of(&out)
}

/// Whether integers have a text in `radix`: in radix 2, 8, 10 and 16.
pub open spec fn radix_has_text(radix: u32) -> bool {
    radix == 2 || radix == 8 || radix == 10 || radix == 16
}

impl Number {
    /// The text of an integer in `radix`: in radix 10 with a `-` before a
    /// negative value, in radix 2, 8 and 16 the 64-bit two's complement
    /// pattern. A number held as a floating-point value has none, and an
    /// integer has none in any other radix.
    pub fn to_string_radix(&self, radix: u32) -> (r: Result<String, ToStringRadixError>)
        ensures
            match self.0 {
                Inner::Float(f) => r == Err::<String, ToStringRadixError>(
                    ToStringRadixError::NotAnInteger(NotAnInteger(f)),
                ),
                Inner::Integer(v) => if !radix_has_text(radix) {
                    r == Err::<String, ToStringRadixError>(ToStringRadixError::InvalidRadix(radix))
                } else {
                    r matches Ok(s) && s@ == if radix == 10 {
                        decimal(v)
                    } else {
                        digits(unsigned(v), radix as nat)
                    }
                },
            },
    {
        match self.0 {
            Inner::Float(f) => Err(ToStringRadixError::NotAnInteger(NotAnInteger(f))),
            Inner::Integer(v) => {
                if !(radix == 2 || radix == 8 || radix == 10 || radix == 16) {
                    Err(ToStringRadixError::InvalidRadix(radix))
                } else if radix == 10 {
                    Ok(decimal_text(v))
                } else {
                    let mut out: Vec<char> = Vec::new();
                    push_digits(&mut out, to_unsigned(v), radix as u64);
                    assert(out@ =~= digits(unsigned(v), radix as nat));
                    Ok(string_of(&out))
                }
            },
        }
    }

    /// The text of the number: the decimal text of an integer, and `None`
    /// for a floating-point value, whose text its bits decide.
    pub fn to_text(&self) -> (r: Option<String>)
        ensures
            match self.0 {
                Inner::Integer(v) => r matches Some(s) && s@ == decimal(v),
                Inner::Float(_) => r is None,
            },
    {
        match self.0 {
            Inner::Integer(v) => Some(decimal_text(v)),
            Inner::Float(_) => None,
        }
    }

    /// The text that shows the number to a developer: its text. `None`
    /// for a floating-point value.
    #[allow(non_snake_case)]
    pub fn qs___inspect__(&self, args: &Args) -> (r: Option<String>)
        ensures
            match self.0 {
                Inner::Integer(v) => r matches Some(s) && s@ == decimal(v),
                Inner::Float(_) => r is None,
            },
    {
        self.to_text()
    }
}

/// The character that writes a digit has the value of the digit, and is
/// no white space and no sign.
pub proof fn lemma_digit_char(d: int)
    requires
        0 <= d < 36,
    ensures
        digit_value(digit_char(d)) == d,
        !is_whitespace(digit_char(d)),
        digit_char(d) != '-',
        digit_char(d) != '+',
        digit_char(d) != '_',
{
}

/// The digits of `n` in `radix` are digits of the radix, at least one,
/// and write `n`.
pub proof fn lemma_digits_write(n: nat, radix: u32)
    requires
        2 <= radix <= 36,
    ensures
        digits(n, radix as nat).len() >= 1,
        forall|i: int|
            0 <= i < digits(n, radix as nat).len() ==> is_digit(
                #[trigger] digits(n, radix as nat)[i],
                radix,
            ) && !is_whitespace(digits(n, radix as nat)[i]) && digits(n, radix as nat)[i] != '_',
        digits(n, radix as nat)[0] != '-',
        digits(n, radix as nat)[0] != '+',
        magnitude(digits(n, radix as nat), radix as int) == n,
    decreases n,
{
    let r = radix as nat;
    let s = digits(n, r);
    if n < r {
        lemma_digit_char(n as int);
        assert(s.drop_last() =~= Seq::<char>::empty());
        assert(magnitude(s, radix as int) == magnitude(s.drop_last(), radix as int) * radix + n);
    } else {
        let q = n / r;
        let d = n % r;
        assert(q < n) by (nonlinear_arith)
            requires
                n >= r,
                r >= 2,
                q == n / r,
        ;
        lemma_mod_bound(n as int, r as int);
        lemma_fundamental_div_mod(n as int, r as int);
        lemma_digits_write(q, radix);
        lemma_digit_char(d as int);
        let init = digits(q, r);
        assert(s == init.push(digit_char(d as int)));
        assert(s.drop_last() =~= init);
        assert forall|i: int| 0 <= i < s.len() implies is_digit(#[trigger] s[i], radix)
            && !is_whitespace(s[i]) && s[i] != '_' by {
            if i < init.len() {
                assert(s[i] == init[i]);
            }
        }
        assert(s[0] == init[0]);
        assert(magnitude(s, radix as int) == q * r + d);
        assert(r * q == q * r) by (nonlinear_arith);
    }
}

/// A text whose first and last characters are no white space is trimmed
/// already.
pub proof fn lemma_trim_nothing(s: Seq<char>)
    requires
        s.len() > 0,
        !is_whitespace(s[0]),
        !is_whitespace(s.last()),
    ensures
        trim(s) == s,
{
}

/// A text without `_` has no separators to strip.
pub proof fn lemma_strip_nothing(s: Seq<char>)
    requires
        forall|i: int| 0 <= i < s.len() ==> #[trigger] s[i] != '_',
    ensures
        strip_separators(s) == s,
    decreases s.len(),
{
    reveal(Seq::filter);
    if s.len() > 0 {
        let init = s.drop_last();
        assert forall|i: int| 0 <= i < init.len() implies #[trigger] init[i] != '_' by {
            assert(init[i] == s[i]);
        }
        lemma_strip_nothing(init);
        assert(s.last() == s[s.len() - 1]);
        assert(init.push(s.last()) =~= s);
    } else {
        assert(strip_separators(s) =~= s);
    }
}

/// Reading back what was written: the digits of a number that fits, in
/// any radix from 2 to 36, read in that radix as that number, and nothing
/// of them is stripped or trimmed.
pub proof fn lemma_parse_digits(n: nat, radix: u32)
    requires
        2 <= radix <= 36,
        n <= i64::MAX,
    ensures
        parse_integer(digits(n, radix as nat), radix) == Ok::<i64, IntError>(n as i64),
        clean(digits(n, radix as nat)) == digits(n, radix as nat),
{
    let s = digits(n, radix as nat);
    lemma_digits_write(n, radix);
    lemma_leading_exact(s, radix, s.len() as int);
    assert(s.take(s.len() as int) =~= s);
    assert(is_digit(s[s.len() - 1], radix));
    lemma_trim_nothing(s);
    lemma_strip_nothing(s);
}

/// Reading back what was written: the decimal text of every integer
/// reads as that integer, and nothing of it is stripped or trimmed.
pub proof fn lemma_parse_decimal(v: i64)
    ensures
        parse_integer(decimal(v), 10) == Ok::<i64, IntError>(v),
        clean(decimal(v)) == decimal(v),
{
    if v >= 0 {
        lemma_parse_digits(v as nat, 10);
    } else {
        let n = (-v) as nat;
        let body = digits(n, 10);
        let s = decimal(v);
        lemma_digits_write(n, 10);
        lemma_leading_exact(body, 10, body.len() as int);
        assert(body.take(body.len() as int) =~= body);
        assert(s.skip(1) =~= body);
        assert(s[0] == '-');
        assert(s.last() == body.last());
        assert(is_digit(body[body.len() - 1], 10));
        lemma_trim_nothing(s);
        assert forall|i: int| 0 <= i < s.len() implies #[trigger] s[i] != '_' by {
            if i > 0 {
                assert(s[i] == body[i - 1]);
            }
        }
        lemma_strip_nothing(s);
    }
}

} // verus!
