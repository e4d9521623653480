//! The numeric value type: an integer or a floating-point number.
//!
//! A number in floating-point representation is held as the 64 bits of its
//! IEEE 754 encoding. What the bits say on their own is read from them:
//! whether the value is zero, and which whole number it is. Nothing here
//! computes with floating-point values: an operation that would answers
//! `None`, and the caller's floating-point unit computes it. Integer
//! arithmetic wraps around at the bounds of `i64`.

pub mod arithmetic;
pub mod bits;
pub mod bitwise;
pub mod format;
pub mod literal;
pub mod order;
pub mod parse;

pub use self::arithmetic::{
    integer_math, integer_pow_applies, lemma_wrap_in_range, math, math_undefined, rem_undefined,
    truncated_rem, wrap,
};
pub use self::bits::{from_float, is_zero, whole};
pub use self::bitwise::{bitwise, integer_bitwise, shift_amount};
pub use self::format::{
    decimal, digit_char, digits, lemma_digit_char, lemma_digits_write, lemma_parse_decimal,
    lemma_parse_digits, lemma_strip_nothing, lemma_trim_nothing, radix_has_text, unsigned,
};
pub use self::literal::is_float_literal;
pub use self::parse::{clean, digit_value, is_digit, leading_digits, magnitude, parse_integer};

use vstd::prelude::*;
use crate::args::Args;
use crate::attrs::conversion::Never;
use crate::object::Object;

verus! {

/// The integer representation of a number.
pub type IntegerType = i64;

/// How a number is held.
#[derive(Debug, Clone, Copy, PartialEq, Eq, Structural)]
pub enum Inner {
    /// A signed 64-bit integer.
    Integer(IntegerType),
    /// The bits of an IEEE 754 binary64 value.
    Float(u64),
}

/// A number. `==` on numbers compares how they are held; whether two
/// numbers are numerically equal is [`Number::eql`].
#[derive(Debug, Clone, Copy, PartialEq, Eq, Structural)]
pub struct Number(pub Inner);

/// A number in floating-point representation met an operation that works
/// on integers only. Carries the bits of the offending value.
#[derive(Debug, Clone, Copy, PartialEq, Eq, Structural)]
pub struct NotAnInteger(pub u64);

/// Why a text is no integer literal.
#[derive(Debug, Clone, Copy, PartialEq, Eq, Structural)]
pub enum IntError {
    /// The text is empty.
    Empty,
    /// A character is no digit of the radix, or a sign stands alone.
    InvalidDigit,
    /// The value is above `i64::MAX`.
    PosOverflow,
    /// The value is below `i64::MIN`.
    NegOverflow,
}

/// What a number literal reads as.
#[derive(Debug, Clone, PartialEq, Eq)]
pub enum Parsed {
    /// A decimal integer that fits: the number.
    Number(Number),
    /// A floating-point literal. Carries the text without separators and
    /// surrounding white space; its value is for the floating-point
    /// parser, and the number of that value is
    /// [`Number::from_float_bits`].
    Float(String),
}

/// Why a text is no number.
#[derive(Debug, Clone, PartialEq, Eq)]
pub enum FromStrError {
    /// The text is no integer literal of the radix asked for.
    BadInteger(IntError),
    /// The text is neither a decimal integer nor a floating-point
    /// literal. Carries the text without separators and surrounding white
    /// space.
    BadFloat(String),
    /// The radix is outside `2..=36`.
    BadRadix(u32),
}

/// Why a number has no text in a radix.
#[derive(Debug, Clone, Copy, PartialEq, Eq, Structural)]
pub enum ToStringRadixError {
    /// Integers have no text in this radix.
    InvalidRadix(u32),
    /// The number is held as a floating-point value.
    NotAnInteger(NotAnInteger),
}

/// The bits of the constant written NaN: a quiet NaN with no payload.
pub const NAN_BITS: u64 = 0x7ff8_0000_0000_0000;

/// The bits of positive infinity.
pub const INF_BITS: u64 = 0x7ff0_0000_0000_0000;

/// The bits of the floating-point value closest to pi.
pub const PI_BITS: u64 = 0x4009_21fb_5444_2d18;

/// The bits of the floating-point value closest to Euler's number.
pub const E_BITS: u64 = 0x4005_bf0a_8b14_5769;

impl Number {
    /// The integer 0.
    pub fn zero() -> (n: Number)
        ensures
            n == Number(Inner::Integer(0)),
    {
        Number(Inner::Integer(0))
    }

    /// The integer 1.
    pub fn one() -> (n: Number)
        ensures
            n == Number(Inner::Integer(1)),
    {
        Number(Inner::Integer(1))
    }

    /// The number that holds the integer `n`.
    pub fn from_integer(n: IntegerType) -> (r: Number)
        ensures
            r == Number(Inner::Integer(n)),
    {
        Number(Inner::Integer(n))
    }

    /// The number that holds the floating-point value with these bits, as
    /// they are.
    pub fn from_bits(bits: u64) -> (r: Number)
        ensures
            r == Number(Inner::Float(bits)),
    {
        Number(Inner::Float(bits))
    }

    /// Pi, as a floating-point value.
    pub fn pi() -> (n: Number)
        ensures
            n == Number(Inner::Float(PI_BITS)),
    {
        Number(Inner::Float(PI_BITS))
    }

    /// Euler's number, as a floating-point value.
    pub fn e() -> (n: Number)
        ensures
            n == Number(Inner::Float(E_BITS)),
    {
        Number(Inner::Float(E_BITS))
    }

    /// The floating-point value that is not a number.
    pub fn nan() -> (n: Number)
        ensures
            n == Number(Inner::Float(NAN_BITS)),
    {
        Number(Inner::Float(NAN_BITS))
    }

    /// Positive infinity.
    pub fn inf() -> (n: Number)
        ensures
            n == Number(Inner::Float(INF_BITS)),
    {
        Number(Inner::Float(INF_BITS))
    }

    /// Whether the number is held as an integer.
    pub fn is_integer(&self) -> (b: bool)
        ensures
            b == (self.0 is Integer),
    {
        match self.0 {
            Inner::Integer(_) => true,
            Inner::Float(_) => false,
        }
    }

    /// The integer that the number holds. A floating-point value is
    /// refused with its bits, whole or not.
    pub fn try_into_integer(self) -> (r: Result<IntegerType, NotAnInteger>)
        ensures
            r == match self.0 {
                Inner::Integer(n) => Ok::<IntegerType, NotAnInteger>(n),
                Inner::Float(f) => Err(NotAnInteger(f)),
            },
    {
        match self.0 {
            Inner::Integer(n) => Ok(n),
            Inner::Float(f) => Err(NotAnInteger(f)),
        }
    }

    /// The number of an object that holds a number: the object itself.
    /// It cannot fail.
    pub fn qs_at_num(this: &Object, args: &Args) -> (r: core::result::Result<Object, Never>)
        ensures
            r matches Ok(o) && o == *this,
    {
        Ok(*this)
    }
}

impl Default for Number {
    fn default() -> (n: Number)
        ensures
            n == Number(Inner::Integer(0)),
    {
        Number(Inner::Integer(0))
    }
}

impl From<IntegerType> for Number {
    fn from(n: IntegerType) -> (r: Number)
        ensures
            r == Number(Inner::Integer(n)),
    {
        Number(Inner::Integer(n))
    }
}

impl vstd::std_specs::convert::FromSpecImpl<IntegerType> for Number {
    open spec fn obeys_from_spec() -> bool {
        true
    }

    open spec fn from_spec(n: IntegerType) -> Number {
        Number(Inner::Integer(n))
    }
}

impl From<i8> for Number {
    fn from(n: i8) -> (r: Number)
        ensures
            r == Number(Inner::Integer(n as i64)),
    {
        Number(Inner::Integer(n as i64))
    }
}

impl vstd::std_specs::convert::FromSpecImpl<i8> for Number {
    open spec fn obeys_from_spec() -> bool {
        true
    }

    open spec fn from_spec(n: i8) -> Number {
        Number(Inner::Integer(n as i64))
    }
}

impl From<i16> for Number {
    fn from(n: i16) -> (r: Number)
        ensures
            r == Number(Inner::Integer(n as i64)),
    {
        Number(Inner::Integer(n as i64))
    }
}

impl vstd::std_specs::convert::FromSpecImpl<i16> for Number {
    open spec fn obeys_from_spec() -> bool {
        true
    }

    open spec fn from_spec(n: i16) -> Number {
        Number(Inner::Integer(n as i64))
    }
}

impl From<i32> for Number {
    fn from(n: i32) -> (r: Number)
        ensures
            r == Number(Inner::Integer(n as i64)),
    {
        Number(Inner::Integer(n as i64))
    }
}

impl vstd::std_specs::convert::FromSpecImpl<i32> for Number {
    open spec fn obeys_from_spec() -> bool {
        true
    }

    open spec fn from_spec(n: i32) -> Number {
        Number(Inner::Integer(n as i64))
    }
}

impl From<u8> for Number {
    fn from(n: u8) -> (r: Number)
        ensures
            r == Number(Inner::Integer(n as i64)),
    {
        Number(Inner::Integer(n as i64))
    }
}

impl vstd::std_specs::convert::FromSpecImpl<u8> for Number {
    open spec fn obeys_from_spec() -> bool {
        true
    }

    open spec fn from_spec(n: u8) -> Number {
        Number(Inner::Integer(n as i64))
    }
}

impl From<u16> for Number {
    fn from(n: u16) -> (r: Number)
        ensures
            r == Number(Inner::Integer(n as i64)),
    {
        Number(Inner::Integer(n as i64))
    }
}

impl vstd::std_specs::convert::FromSpecImpl<u16> for Number {
    open spec fn obeys_from_spec() -> bool {
        true
    }

    open spec fn from_spec(n: u16) -> Number {
        Number(Inner::Integer(n as i64))
    }
}

impl From<u32> for Number {
    fn from(n: u32) -> (r: Number)
        ensures
            r == Number(Inner::Integer(n as i64)),
    {
        Number(Inner::Integer(n as i64))
    }
}

impl vstd::std_specs::convert::FromSpecImpl<u32> for Number {
    open spec fn obeys_from_spec() -> bool {
        true
    }

    open spec fn from_spec(n: u32) -> Number {
        Number(Inner::Integer(n as i64))
    }
}

/// The integer with the bit pattern of `n`: `n` itself where it fits, and
/// `n - 2^64` above that.
fn reinterpret(n: u64) -> (r: i64)
    ensures
        r == wrap(n as int),
{
    if n <= 0x7fff_ffff_ffff_ffff {
        n as i64
    } else {
        ((n - 0x8000_0000_0000_0000) as i64) + i64::MIN
    }
}

impl From<u64> for Number {
    fn from(n: u64) -> (r: Number)
        ensures
            r == Number(Inner::Integer(wrap(n as int))),
    {
        Number(Inner::Integer(reinterpret(n)))
    }
}

impl vstd::std_specs::convert::FromSpecImpl<u64> for Number {
    open spec fn obeys_from_spec() -> bool {
        true
    }

    open spec fn from_spec(n: u64) -> Number {
        Number(Inner::Integer(wrap(n as int)))
    }
}

impl From<usize> for Number {
    fn from(n: usize) -> (r: Number)
        ensures
            r == Number(Inner::Integer(wrap(n as int))),
    {
        Number(Inner::Integer(reinterpret(n as u64)))
    }
}

impl vstd::std_specs::convert::FromSpecImpl<usize> for Number {
    open spec fn obeys_from_spec() -> bool {
        true
    }

    open spec fn from_spec(n: usize) -> Number {
        Number(Inner::Integer(wrap(n as int)))
    }
}

impl From<isize> for Number {
    fn from(n: isize) -> (r: Number)
        ensures
            r == Number(Inner::Integer(n as i64)),
    {
        Number(Inner::Integer(n as i64))
    }
}

impl vstd::std_specs::convert::FromSpecImpl<isize> for Number {
    open spec fn obeys_from_spec() -> bool {
        true
    }

    open spec fn from_spec(n: isize) -> Number {
        Number(Inner::Integer(n as i64))
    }
}

/// The low 64 bits of `n`.
fn low_bits(n: u128) -> (r: u64)
    ensures
        r == n % 0x1_0000_0000_0000_0000,
{
    let low: u128 = n & 0xffff_ffff_ffff_ffff;
    assert(low == n % 0x1_0000_0000_0000_0000) by (bit_vector)
        requires
            low == n & 0xffff_ffff_ffff_ffff,
    ;
    low as u64
}

impl From<u128> for Number {
    fn from(n: u128) -> (r: Number)
        ensures
            r == Number(Inner::Integer(wrap(n as int))),
    {
        let low = low_bits(n);
        proof {
            vstd::arithmetic::div_mod::lemma_mod_twice(n as int, 0x1_0000_0000_0000_0000);
        }
        Number(Inner::Integer(reinterpret(low)))
    }
}

impl vstd::std_specs::convert::FromSpecImpl<u128> for Number {
    open spec fn obeys_from_spec() -> bool {
        true
    }

    open spec fn from_spec(n: u128) -> Number {
        Number(Inner::Integer(wrap(n as int)))
    }
}

/// The low 64 bits of `n`.
fn low_bits_signed(n: i128) -> (r: u64)
    ensures
        r == n % 0x1_0000_0000_0000_0000,
{
    let low: i128 = n & 0xffff_ffff_ffff_ffff;
    assert(0 <= low < 0x1_0000_0000_0000_0000 && (n - low) % 0x1_0000_0000_0000_0000 == 0)
        by (bit_vector)
        requires
            low == n & 0xffff_ffff_ffff_ffff,
    ;
    proof {
        let m = 0x1_0000_0000_0000_0000int;
        let q = (n - low) / m;
        vstd::arithmetic::div_mod::lemma_fundamental_div_mod(n - low, m);
        vstd::arithmetic::div_mod::lemma_mod_multiples_vanish(q, low as int, m);
        vstd::arithmetic::div_mod::lemma_small_mod(low as nat, m as nat);
    }
    low as u64
}

impl From<i128> for Number {
    fn from(n: i128) -> (r: Number)
        ensures
            r == Number(Inner::Integer(wrap(n as int))),
    {
        let low = low_bits_signed(n);
        proof {
            vstd::arithmetic::div_mod::lemma_mod_twice(n as int, 0x1_0000_0000_0000_0000);
        }
        Number(Inner::Integer(reinterpret(low)))
    }
}

impl vstd::std_specs::convert::FromSpecImpl<i128> for Number {
    open spec fn obeys_from_spec() -> bool {
        true
    }

    open spec fn from_spec(n: i128) -> Number {
        Number(Inner::Integer(wrap(n as int)))
    }
}

} // verus!
