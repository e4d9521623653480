//! Which texts are floating-point literals. The value of one is for the
//! floating-point parser; whether a text is one is decided here.
//!
//! A literal is an optional sign and then `inf`, `infinity` or `nan` in
//! any case, or a number: digits, with a point before, after or among
//! them, and after that an optional exponent, which is `e` in either case,
//! an optional sign and digits.

use vstd::prelude::*;
use crate::number::parse::{digit_of, is_digit, leading_digits, lemma_leading_exact};
use crate::text::chars_of;

verus! {

/// Whether `c` is a sign.
pub open spec fn is_sign(c: char) -> bool {
    c == '+' || c == '-'
}

/// `c` in lower case, where it is a letter of the alphabet in upper case,
/// and else `c`.
pub open spec fn lower(c: char) -> char {
    if 65 <= c as u32 <= 90 {
        ((c as u32 + 32) as u8) as char
    } else {
        c
    }
}

/// Whether `s` is `word` but for the case of its letters. `word` is in
/// lower case.
pub open spec fn spells(s: Seq<char>, word: Seq<char>) -> bool {
    s.len() == word.len() && forall|i: int| 0 <= i < s.len() ==> lower(#[trigger] s[i]) == word[i]
}

/// Whether `s` is an exponent: `e`, an optional sign, and one or more
/// digits.
pub open spec fn is_exponent(s: Seq<char>) -> bool {
    let t = s.skip(1);
    let digits = if t.len() > 0 && is_sign(t[0]) {
        t.skip(1)
    } else {
        t
    };
    s.len() >= 1 && (s[0] == 'e' || s[0] == 'E') && digits.len() >= 1 && leading_digits(digits, 10)
        == digits.len()
}

/// Whether `s` is a number in decimal notation: digits, then optionally a
/// point and digits, with one digit at least, then optionally an
/// exponent.
pub open spec fn is_decimal(s: Seq<char>) -> bool {
    let before = leading_digits(s, 10);
    let rest = s.skip(before as int);
    let point = rest.len() > 0 && rest[0] == '.';
    let tail = if point {
        rest.skip(1)
    } else {
        rest
    };
    let after = if point {
        leading_digits(tail, 10)
    } else {
        0
    };
    let end = tail.skip(after as int);
    before + after >= 1 && (end.len() == 0 || is_exponent(end))
}

/// Whether `s` is a floating-point literal.
pub open spec fn is_float_literal(s: Seq<char>) -> bool {
    let body = if s.len() > 0 && is_sign(s[0]) {
        s.skip(1)
    } else {
        s
    };
    spells(body, "inf"@) || spells(body, "infinity"@) || spells(body, "nan"@) || is_decimal(body)
}

/// `c` in lower case.
fn lowered(c: char) -> (l: char)
    ensures
        l == lower(c),
{
    let u: u32 = c as u32;
    if 65 <= u && u <= 90 {
        ((u + 32) as u8) as char
    } else {
        c
    }
}

/// How many digits stand in `v` from `start` on, up to the first
/// character that is none.
fn digit_run(v: &Vec<char>, start: usize) -> (n: usize)
    requires
        start <= v.len(),
    ensures
        n == leading_digits(v@.skip(start as int), 10),
        start + n <= v.len(),
{
    let ghost s = v@.skip(start as int);
    let mut i: usize = start;
    while i < v.len() && digit_of(v[i]) < 10
        invariant
            start <= i <= v.len(),
            s == v@.skip(start as int),
            forall|k: int| 0 <= k < i - start ==> is_digit(#[trigger] s[k], 10),
        decreases v.len() - i,
    {
        assert(s[i - start] == v@[i as int]);
        i += 1;
    }
    proof {
        if i < v.len() {
            assert(s[i - start] == v@[i as int]);
        }
        lemma_leading_exact(s, 10, i - start);
    }
    i - start
}

/// Whether `v` from `start` on is `word` but for the case of its letters.
fn spells_from(v: &Vec<char>, start: usize, word: &str) -> (b: bool)
    requires
        start <= v.len(),
    ensures
        b == spells(v@.skip(start as int), word@),
{
    let w = chars_of(word);
    if v.len() - start != w.len() {
        return false;
    }
    let ghost s = v@.skip(start as int);
    let mut i: usize = 0;
    while i < w.len()
        invariant
            i <= w.len(),
            w@ == word@,
            start + w.len() == v.len(),
            s == v@.skip(start as int),
            forall|k: int| 0 <= k < i ==> lower(#[trigger] s[k]) == w@[k],
        decreases w.len() - i,
    {
        assert(s[i as int] == v@[start + i]);
        if lowered(v[start + i]) != w[i] {
            return false;
        }
        i += 1;
    }
    true
}

/// Whether `v` from `start` on is an exponent.
fn exponent_from(v: &Vec<char>, start: usize) -> (b: bool)
    requires
        start <= v.len(),
    ensures
        b == is_exponent(v@.skip(start as int)),
{
    if start >= v.len() {
        return false;
    }
    let ghost s = v@.skip(start as int);
    assert(s[0] == v@[start as int]);
    if !(v[start] == 'e' || v[start] == 'E') {
        return false;
    }
    let mut i: usize = start + 1;
    assert(s.skip(1) =~= v@.skip(start + 1));
    if i < v.len() && (v[i] == '+' || v[i] == '-') {
        assert(s.skip(1)[0] == v@[i as int]);
        assert(s.skip(1).skip(1) =~= v@.skip(start + 2));
        i += 1;
    } else if i < v.len() {
        assert(s.skip(1)[0] == v@[i as int]);
    }
    let n = digit_run(v, i);
    n >= 1 && i + n == v.len()
}

/// Whether `v` from `start` on is a number in decimal notation.
fn decimal_from(v: &Vec<char>, start: usize) -> (b: bool)
    requires
        start <= v.len(),
    ensures
        b == is_decimal(v@.skip(start as int)),
{
    let ghost s = v@.skip(start as int);
    let before = digit_run(v, start);
    let mut i: usize = start + before;
    assert(s.skip(before as int) =~= v@.skip(i as int));
    let mut after: usize = 0;
    if i < v.len() && v[i] == '.' {
        assert(s.skip(before as int)[0] == v@[i as int]);
        assert(s.skip(before as int).skip(1) =~= v@.skip(i + 1));
        i += 1;
        after = digit_run(v, i);
        assert(v@.skip(i as int).skip(after as int) =~= v@.skip(i + after));
        i += after;
    } else {
        if i < v.len() {
            assert(s.skip(before as int)[0] == v@[i as int]);
        }
        assert(v@.skip(i as int).skip(0) =~= v@.skip(i as int));
    }
    if before + after == 0 {
        return false;
    }
    if i == v.len() {
        return true;
    }
    exponent_from(v, i)
}

/// Whether the characters are a floating-point literal.
pub fn float_literal(v: &Vec<char>) -> (b: bool)
    ensures
        b == is_float_literal(v@),
{
    let start: usize = if v.len() > 0 && (v[0] == '+' || v[0] == '-') {
        1
    } else {
        0
    };
    assert(v@.skip(0) =~= v@);
    spells_from(v, start, "inf") || spells_from(v, start, "infinity") || spells_from(
        v,
        start,
        "nan",
    ) || decimal_from(v, start)
}

} // verus!
