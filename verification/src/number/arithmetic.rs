//! Arithmetic on numbers. Integers wrap around; whatever takes a
//! floating-point value is left to the floating-point unit.

use vstd::prelude::*;
use vstd::arithmetic::div_mod::{
    lemma_mod_bound, lemma_mod_multiples_vanish, lemma_mul_mod_noop_general, lemma_small_mod,
};
use vstd::arithmetic::power::{
    lemma_pow0, lemma_pow1, lemma_pow_adds, lemma_pow_multiplies, lemma_square_is_pow2, pow,
};
use crate::number::{Inner, Number, NAN_BITS};
use crate::rustfn::MathOp;

verus! {

/// `x` brought into `i64` by two's complement wrap-around.
pub open spec fn wrap(x: int) -> i64 {
    if x % 0x1_0000_0000_0000_0000 > i64::MAX {
        (x % 0x1_0000_0000_0000_0000 - 0x1_0000_0000_0000_0000) as i64
    } else {
        (x % 0x1_0000_0000_0000_0000) as i64
    }
}

/// Wrap-around leaves a number that fits as it is.
pub proof fn lemma_wrap_in_range(x: int)
    requires
        i64::MIN <= x <= i64::MAX,
    ensures
        wrap(x) == x,
{
    let m = 0x1_0000_0000_0000_0000int;
    if x >= 0 {
        lemma_small_mod(x as nat, m as nat);
    } else {
        lemma_mod_multiples_vanish(1, x, m);
        lemma_small_mod((x + m) as nat, m as nat);
    }
}

/// The remainder of `l` by `r` that has the sign of `l`, as integer
/// division that rounds toward zero leaves it.
pub open spec fn truncated_rem(l: int, r: int) -> int {
    let d = if r < 0 {
        -r
    } else {
        r
    };
    if l >= 0 {
        l % d
    } else {
        -((-l) % d)
    }
}

/// Whether `l % r` on integers has no value: the divisor is zero, on
/// which integer arithmetic traps. The remainder by -1 is zero for every
/// dividend, the least one too.
pub open spec fn rem_undefined(l: i64, r: i64) -> bool {
    r == 0
}

/// Whether `**` on two integers is computed on integers: both are within
/// `0..=u32::MAX`.
pub open spec fn integer_pow_applies(l: i64, r: i64) -> bool {
    0 <= l <= u32::MAX && 0 <= r <= u32::MAX
}

/// What an arithmetic operator gives on two integers without the
/// floating-point unit, if anything.
pub open spec fn integer_math(op: MathOp, l: i64, r: i64) -> Option<Number> {
    match op {
        MathOp::Add => Some(Number(Inner::Integer(wrap(l + r)))),
        MathOp::Sub => Some(Number(Inner::Integer(wrap(l - r)))),
        MathOp::Mul => Some(Number(Inner::Integer(wrap(l * r)))),
        MathOp::Div => if r == 0 {
            Some(Number(Inner::Float(NAN_BITS)))
        } else {
            None
        },
        MathOp::Rem => if rem_undefined(l, r) {
            None
        } else {
            Some(Number(Inner::Integer(truncated_rem(l as int, r as int) as i64)))
        },
        MathOp::Pow => if integer_pow_applies(l, r) {
            Some(Number(Inner::Integer(wrap(pow(l as int, r as nat)))))
        } else {
            None
        },
    }
}

/// What an arithmetic operator gives on two numbers without the
/// floating-point unit: what it gives on two integers, and nothing where
/// either is a floating-point value.
pub open spec fn math(op: MathOp, l: Number, r: Number) -> Option<Number> {
    match (l.0, r.0) {
        (Inner::Integer(a), Inner::Integer(b)) => integer_math(op, a, b),
        _ => None,
    }
}

/// Whether the operator is a remainder of two integers that has no value.
pub open spec fn math_undefined(op: MathOp, l: Number, r: Number) -> bool {
    match (op, l.0, r.0) {
        (MathOp::Rem, Inner::Integer(a), Inner::Integer(b)) => rem_undefined(a, b),
        _ => false,
    }
}

/// Wrapping a number leaves its remainder by 2^64 as it is.
proof fn lemma_wrap_congruent(x: int)
    ensures
        (wrap(x) as int) % 0x1_0000_0000_0000_0000 == x % 0x1_0000_0000_0000_0000,
{
    let m = 0x1_0000_0000_0000_0000int;
    let r = x % m;
    lemma_small_mod(r as nat, m as nat);
    if r > i64::MAX {
        lemma_mod_multiples_vanish(-1, r, m);
        assert(m * (-1) + r == r - m);
    }
}

/// The product of two wrapped numbers wraps to what the product of the
/// numbers wraps to.
proof fn lemma_wrap_mul(a: int, b: int)
    ensures
        wrap(wrap(a) * wrap(b)) == wrap(a * b),
{
    let m = 0x1_0000_0000_0000_0000int;
    lemma_wrap_congruent(a);
    lemma_wrap_congruent(b);
    lemma_mul_mod_noop_general(a, b, m);
    lemma_mul_mod_noop_general(wrap(a) as int, wrap(b) as int, m);
}

/// A power with an even exponent is the power of the square with half the
/// exponent.
proof fn lemma_pow_halves(b: int, k: nat)
    ensures
        pow(b, 2 * k) == pow(b * b, k),
{
    lemma_square_is_pow2(b);
    lemma_pow_multiplies(b, 2, k);
}

/// `base` to the power `exp`, wrapped into `i64`.
fn wrapping_pow(base: i64, exp: u32) -> (r: i64)
    ensures
        r == wrap(pow(base as int, exp as nat)),
{
    let mut acc: i64 = 1;
    let mut b: i64 = base;
    let mut e: u32 = exp;
    let ghost mut ga: int = 1;
    let ghost mut gb: int = base as int;
    proof {
        lemma_small_mod(1, 0x1_0000_0000_0000_0000);
        lemma_wrap_congruent(base as int);
        assert(ga * pow(gb, e as nat) == pow(base as int, exp as nat)) by (nonlinear_arith)
            requires
                ga == 1,
                gb == base as int,
                e == exp,
        ;
        if base >= 0 {
            lemma_small_mod(base as nat, 0x1_0000_0000_0000_0000);
        } else {
            lemma_mod_multiples_vanish(1, base as int, 0x1_0000_0000_0000_0000);
            lemma_small_mod((base + 0x1_0000_0000_0000_0000) as nat, 0x1_0000_0000_0000_0000);
        }
    }
    while e > 0
        invariant
            acc == wrap(ga),
            b == wrap(gb),
            ga * pow(gb, e as nat) == pow(base as int, exp as nat),
        decreases e,
    {
        let ghost k: nat = (e / 2) as nat;
        if e % 2 == 1 {
            proof {
                lemma_wrap_mul(ga, gb);
                lemma_pow_adds(gb, 1, 2 * k);
                lemma_pow1(gb);
                let rest = pow(gb, 2 * k);
                assert(ga * (gb * rest) == (ga * gb) * rest) by (nonlinear_arith);
                ga = ga * gb;
            }
            acc = acc.wrapping_mul(b);
        }
        proof {
            lemma_wrap_mul(gb, gb);
            lemma_pow_halves(gb, k);
            gb = gb * gb;
        }
        b = b.wrapping_mul(b);
        e = e / 2;
    }
    proof {
        lemma_pow0(gb);
        assert(ga * 1 == ga);
    }
    acc
}

impl Number {
    /// The sum. Two integers add with wrap-around; `None` where either
    /// operand is a floating-point value.
    pub fn add(self, rhs: Number) -> (r: Option<Number>)
        ensures
            r == match (self.0, rhs.0) {
                (Inner::Integer(l), Inner::Integer(r)) => Some(Number(Inner::Integer(wrap(l + r)))),
                _ => None::<Number>,
            },
    {
        match (self.0, rhs.0) {
            (Inner::Integer(l), Inner::Integer(r)) => Some(
                Number(Inner::Integer(l.wrapping_add(r))),
            ),
            _ => None,
        }
    }

    /// The difference. Two integers subtract with wrap-around; `None`
    /// where either operand is a floating-point value.
    pub fn sub(self, rhs: Number) -> (r: Option<Number>)
        ensures
            r == match (self.0, rhs.0) {
                (Inner::Integer(l), Inner::Integer(r)) => Some(Number(Inner::Integer(wrap(l - r)))),
                _ => None::<Number>,
            },
    {
        match (self.0, rhs.0) {
            (Inner::Integer(l), Inner::Integer(r)) => Some(
                Number(Inner::Integer(l.wrapping_sub(r))),
            ),
            _ => None,
        }
    }

    /// The product. Two integers multiply with wrap-around; `None` where
    /// either operand is a floating-point value.
    pub fn mul(self, rhs: Number) -> (r: Option<Number>)
        ensures
            r == match (self.0, rhs.0) {
                (Inner::Integer(l), Inner::Integer(r)) => Some(Number(Inner::Integer(wrap(l * r)))),
                _ => None::<Number>,
            },
    {
        match (self.0, rhs.0) {
            (Inner::Integer(l), Inner::Integer(r)) => Some(
                Number(Inner::Integer(l.wrapping_mul(r))),
            ),
            _ => None,
        }
    }

    /// The remainder, with the sign of the dividend. `None` where either
    /// operand is a floating-point value. The remainder of an integer by
    /// the integer zero has no value, as in integer arithmetic, and is
    /// left out; [`Number::math_undefined`] tests for it.
    pub fn rem(self, rhs: Number) -> (r: Option<Number>)
        requires
            !(self.0 matches Inner::Integer(l) && rhs.0 matches Inner::Integer(r) && rem_undefined(
                l,
                r,
            )),
        ensures
            r == match (self.0, rhs.0) {
                (Inner::Integer(l), Inner::Integer(r)) => Some(
                    Number(Inner::Integer(truncated_rem(l as int, r as int) as i64)),
                ),
                _ => None::<Number>,
            },
    {
        match (self.0, rhs.0) {
            (Inner::Integer(l), Inner::Integer(r)) => {
                proof {
                    let d: int = if r < 0 {
                        -r
                    } else {
                        r as int
                    };
                    let a: int = if l < 0 {
                        -l
                    } else {
                        l as int
                    };
                    vstd::arithmetic::div_mod::lemma_mod_bound(a, d);
                    if a == 0 {
                        vstd::arithmetic::div_mod::lemma_small_mod(0, d as nat);
                    }
                }
                match l.checked_rem(r) {
                    Some(v) => Some(Number(Inner::Integer(v))),
                    None => {
                        proof {
                            vstd::arithmetic::div_mod::lemma_mod_bound(-(l as int), 1);
                        }
                        Some(Number(Inner::Integer(0)))
                    },
                }
            },
            _ => None,
        }
    }

    /// The quotient, which is always a floating-point value: `None`, but
    /// for an integer divided by the integer zero, which is NaN.
    pub fn div(self, rhs: Number) -> (r: Option<Number>)
        ensures
            r == match (self.0, rhs.0) {
                (Inner::Integer(_), Inner::Integer(r)) if r == 0 => Some(
                    Number(Inner::Float(NAN_BITS)),
                ),
                _ => None::<Number>,
            },
    {
        match (self.0, rhs.0) {
            (Inner::Integer(_), Inner::Integer(r)) if r == 0 => Some(Number::nan()),
            _ => None,
        }
    }

    /// The number raised to the power `rhs`. Two integers that are both
    /// within `0..=u32::MAX` give an integer, with wrap-around; every other
    /// pair gives `None`.
    pub fn pow(self, rhs: Number) -> (r: Option<Number>)
        ensures
            r == match (self.0, rhs.0) {
                (Inner::Integer(l), Inner::Integer(r)) if integer_pow_applies(l, r) => Some(
                    Number(Inner::Integer(wrap(pow(l as int, r as nat)))),
                ),
                _ => None::<Number>,
            },
    {
        match (self.0, rhs.0) {
            (Inner::Integer(l), Inner::Integer(r)) => {
                if 0 <= l && l <= 0xffff_ffff && 0 <= r && r <= 0xffff_ffff {
                    Some(Number(Inner::Integer(wrapping_pow(l, r as u32))))
                } else {
                    None
                }
            },
            _ => None,
        }
    }

    /// The number negated. An integer negates with wrap-around; `None`
    /// for a floating-point value.
    pub fn neg(self) -> (r: Option<Number>)
        ensures
            r == match self.0 {
                Inner::Integer(i) => Some(Number(Inner::Integer(wrap(-i)))),
                Inner::Float(_) => None::<Number>,
            },
    {
        match self.0 {
            Inner::Integer(i) => Some(Number(Inner::Integer(0i64.wrapping_sub(i)))),
            Inner::Float(_) => None,
        }
    }

    /// The absolute value. That of `i64::MIN` wraps around to itself;
    /// `None` for a floating-point value.
    pub fn abs(self) -> (r: Option<Number>)
        ensures
            r == match self.0 {
                Inner::Integer(i) => Some(
                    Number(
                        Inner::Integer(
                            wrap(
                                if i < 0 {
                                    -i
                                } else {
                                    i as int
                                },
                            ),
                        ),
                    ),
                ),
                Inner::Float(_) => None::<Number>,
            },
    {
        match self.0 {
            Inner::Integer(i) => {
                if i < 0 {
                    Some(Number(Inner::Integer(0i64.wrapping_sub(i))))
                } else {
                    Some(Number(Inner::Integer(i)))
                }
            },
            Inner::Float(_) => None,
        }
    }

    /// Replaces the number by the sum of it and `rhs`, where [`Number::add`]
    /// has one, and says whether it did.
    pub fn add_assign(&mut self, rhs: Number) -> (done: bool)
        ensures
            match (old(self).0, rhs.0) {
                (Inner::Integer(l), Inner::Integer(r)) => done && *final(self) == Number(
                    Inner::Integer(wrap(l + r)),
                ),
                _ => !done && *final(self) == *old(self),
            },
    {
        match self.add(rhs) {
            Some(n) => {
                *self = n;
                true
            },
            None => false,
        }
    }

    /// Replaces the number by the difference of it and `rhs`, where [`Number::sub`]
    /// has one, and says whether it did.
    pub fn sub_assign(&mut self, rhs: Number) -> (done: bool)
        ensures
            match (old(self).0, rhs.0) {
                (Inner::Integer(l), Inner::Integer(r)) => done && *final(self) == Number(
                    Inner::Integer(wrap(l - r)),
                ),
                _ => !done && *final(self) == *old(self),
            },
    {
        match self.sub(rhs) {
            Some(n) => {
                *self = n;
                true
            },
            None => false,
        }
    }

    /// Replaces the number by the product of it and `rhs`, where [`Number::mul`]
    /// has one, and says whether it did.
    pub fn mul_assign(&mut self, rhs: Number) -> (done: bool)
        ensures
            match (old(self).0, rhs.0) {
                (Inner::Integer(l), Inner::Integer(r)) => done && *final(self) == Number(
                    Inner::Integer(wrap(l * r)),
                ),
                _ => !done && *final(self) == *old(self),
            },
    {
        match self.mul(rhs) {
            Some(n) => {
                *self = n;
                true
            },
            None => false,
        }
    }

    /// Replaces the number by the remainder of it by `rhs`, where
    /// [`Number::rem`] has one, and says whether it did.
    pub fn rem_assign(&mut self, rhs: Number) -> (done: bool)
        requires
            !(old(self).0 matches Inner::Integer(l) && rhs.0 matches Inner::Integer(r)
                && rem_undefined(l, r)),
        ensures
            match (old(self).0, rhs.0) {
                (Inner::Integer(l), Inner::Integer(r)) => done && *final(self) == Number(
                    Inner::Integer(truncated_rem(l as int, r as int) as i64),
                ),
                _ => !done && *final(self) == *old(self),
            },
    {
        match self.rem(rhs) {
            Some(n) => {
                *self = n;
                true
            },
            None => false,
        }
    }

    /// Replaces the number by the quotient of it and `rhs`, where [`Number::div`]
    /// has one, and says whether it did.
    pub fn div_assign(&mut self, rhs: Number) -> (done: bool)
        ensures
            match (old(self).0, rhs.0) {
                (Inner::Integer(_), Inner::Integer(r)) if r == 0 => done && *final(self) == Number(
                    Inner::Float(NAN_BITS),
                ),
                _ => !done && *final(self) == *old(self),
            },
    {
        match self.div(rhs) {
            Some(n) => {
                *self = n;
                true
            },
            None => false,
        }
    }

    /// Replaces the number by the power of it and `rhs`, where [`Number::pow`]
    /// has one, and says whether it did.
    pub fn pow_assign(&mut self, rhs: Number) -> (done: bool)
        ensures
            match (old(self).0, rhs.0) {
                (Inner::Integer(l), Inner::Integer(r)) if integer_pow_applies(l, r) => done
                    && *final(self) == Number(Inner::Integer(wrap(pow(l as int, r as nat)))),
                _ => !done && *final(self) == *old(self),
            },
    {
        match self.pow(rhs) {
            Some(n) => {
                *self = n;
                true
            },
            None => false,
        }
    }

    /// The number under the arithmetic operator `op` with `rhs`, where
    /// the floating-point unit is not needed for it. The remainder of two
    /// integers must have a value.
    pub fn math(self, op: MathOp, rhs: Number) -> (r: Option<Number>)
        requires
            !math_undefined(op, self, rhs),
        ensures
            r == math(op, self, rhs),
    {
        match op {
            MathOp::Add => self.add(rhs),
            MathOp::Sub => self.sub(rhs),
            MathOp::Mul => self.mul(rhs),
            MathOp::Div => self.div(rhs),
            MathOp::Rem => self.rem(rhs),
            MathOp::Pow => self.pow(rhs),
        }
    }

    /// Whether the remainder of the number by `rhs` is that of two
    /// integers and has no value.
    pub fn math_undefined(self, op: MathOp, rhs: Number) -> (b: bool)
        ensures
            b == math_undefined(op, self, rhs),
    {
        match (op, self.0, rhs.0) {
            (MathOp::Rem, Inner::Integer(_), Inner::Integer(r)) => r == 0,
            _ => false,
        }
    }
}

} // verus!
