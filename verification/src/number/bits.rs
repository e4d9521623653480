//! What the bits of a floating-point value say without floating-point
//! arithmetic: whether the value is zero, and which whole number it is.
//!
//! The bits are those of IEEE 754 binary64: one sign bit, eleven bits of
//! exponent with a bias of 1023, and 52 bits of fraction.

use vstd::prelude::*;
use vstd::arithmetic::div_mod::lemma_small_mod;
use vstd::arithmetic::power2::{
    lemma2_to64, lemma2_to64_rest, lemma_pow2_pos, lemma_pow2_strictly_increases,
    lemma_pow2_unfold, pow2,
};
use crate::number::{Inner, Number};

verus! {

/// Whether the sign bit is set.
pub open spec fn negative(bits: u64) -> bool {
    bits >= 0x8000_0000_0000_0000
}

/// The eleven bits of the exponent, as they are stored.
pub open spec fn biased_exponent(bits: u64) -> nat {
    ((bits / 0x10_0000_0000_0000) % 0x800) as nat
}

/// The 52 bits of the fraction.
pub open spec fn fraction(bits: u64) -> nat {
    (bits % 0x10_0000_0000_0000) as nat
}

/// The significand: the fraction, with the leading one that a normal
/// value does not store.
pub open spec fn significand(bits: u64) -> nat {
    if biased_exponent(bits) == 0 {
        fraction(bits)
    } else {
        (0x10_0000_0000_0000 + fraction(bits)) as nat
    }
}

/// Whether the value is a number and not infinite.
pub open spec fn is_finite(bits: u64) -> bool {
    biased_exponent(bits) != 0x7ff
}

/// Whether the value is zero, of either sign.
pub open spec fn is_zero(bits: u64) -> bool {
    bits % 0x8000_0000_0000_0000 == 0
}

/// The absolute value, where the value is finite and whole. A finite value
/// is its significand times two to the power of its exponent less 1075,
/// or less 1074 where the value is subnormal.
pub open spec fn whole_magnitude(bits: u64) -> Option<nat> {
    let sig = significand(bits);
    let e = biased_exponent(bits);
    if !is_finite(bits) {
        None
    } else if sig == 0 {
        Some(0)
    } else if e >= 1075 {
        Some(sig * pow2((e - 1075) as nat))
    } else {
        let k = if e == 0 {
            1074nat
        } else {
            (1075 - e) as nat
        };
        if sig % pow2(k) == 0 {
            Some(sig / pow2(k))
        } else {
            None
        }
    }
}

/// The whole number that the value is, where it is finite and whole.
pub open spec fn whole(bits: u64) -> Option<int> {
    match whole_magnitude(bits) {
        Some(m) => Some(
            if negative(bits) {
                -(m as int)
            } else {
                m as int
            },
        ),
        None => None,
    }
}

/// The number of a floating-point value: a finite whole value that fits
/// is held as an integer, every other value by its bits.
pub open spec fn from_float(bits: u64) -> Number {
    match whole(bits) {
        Some(v) => if i64::MIN <= v <= i64::MAX {
            Number(Inner::Integer(v as i64))
        } else {
            Number(Inner::Float(bits))
        },
        None => Number(Inner::Float(bits)),
    }
}

/// Two to the power `k`.
fn power_of_two(k: u64) -> (p: u64)
    requires
        k <= 52,
    ensures
        p == pow2(k as nat),
        p <= 0x10_0000_0000_0000,
{
    let mut p: u64 = 1;
    let mut i: u64 = 0;
    proof {
        lemma2_to64();
        lemma2_to64_rest();
    }
    while i < k
        invariant
            i <= k <= 52,
            p == pow2(i as nat),
            pow2(52) == 0x10_0000_0000_0000,
        decreases k - i,
    {
        proof {
            lemma_pow2_unfold((i + 1) as nat);
            if i + 1 < 52 {
                lemma_pow2_strictly_increases((i + 1) as nat, 52);
            }
        }
        p = p * 2;
        i += 1;
    }
    proof {
        if k < 52 {
            lemma_pow2_strictly_increases(k as nat, 52);
        }
    }
    p
}

/// The integer with magnitude `m` and the sign of `bits`, where it fits,
/// and else the value as it is.
fn signed(bits: u64, m: u64) -> (r: Number)
    ensures
        r == if negative(bits) {
            if m <= 0x8000_0000_0000_0000 {
                Number(Inner::Integer((-(m as int)) as i64))
            } else {
                Number(Inner::Float(bits))
            }
        } else {
            if m <= i64::MAX {
                Number(Inner::Integer(m as i64))
            } else {
                Number(Inner::Float(bits))
            }
        },
{
    if bits >= 0x8000_0000_0000_0000 {
        if m == 0x8000_0000_0000_0000 {
            Number(Inner::Integer(i64::MIN))
        } else if m < 0x8000_0000_0000_0000 {
            Number(Inner::Integer(-(m as i64)))
        } else {
            Number(Inner::Float(bits))
        }
    } else {
        if m <= 0x7fff_ffff_ffff_ffff {
            Number(Inner::Integer(m as i64))
        } else {
            Number(Inner::Float(bits))
        }
    }
}

impl Number {
    /// The number of the floating-point value with these bits: a finite
    /// whole value that fits `i64` is held as an integer, every other
    /// value as it is.
    pub fn from_float_bits(bits: u64) -> (r: Number)
        ensures
            r == from_float(bits),
    {
        let e: u64 = (bits / 0x10_0000_0000_0000) % 0x800;
        let frac: u64 = bits % 0x10_0000_0000_0000;
        if e == 0x7ff {
            return Number(Inner::Float(bits));
        }
        let sig: u64 = if e == 0 {
            frac
        } else {
            0x10_0000_0000_0000 + frac
        };
        if sig == 0 {
            return Number(Inner::Integer(0));
        }
        proof {
            lemma2_to64();
            lemma2_to64_rest();
        }
        if e >= 1075 {
            let shift: u64 = e - 1075;
            if shift >= 12 {
                proof {
                    if shift > 12 {
                        lemma_pow2_strictly_increases(12, shift as nat);
                    }
                    let p = pow2(shift as nat);
                    assert(sig * p >= 0x10_0000_0000_0000 * 4096) by (nonlinear_arith)
                        requires
                            sig >= 0x10_0000_0000_0000,
                            p >= 4096,
                    ;
                }
                return Number(Inner::Float(bits));
            }
            let p = power_of_two(shift);
            proof {
                if shift < 11 {
                    lemma_pow2_strictly_increases(shift as nat, 11);
                }
                assert(sig * p <= 0x1f_ffff_ffff_ffff * 2048) by (nonlinear_arith)
                    requires
                        sig <= 0x1f_ffff_ffff_ffff,
                        p <= 2048,
                ;
            }
            signed(bits, sig * p)
        } else {
            let k: u64 = if e == 0 {
                1074
            } else {
                1075 - e
            };
            if k >= 53 {
                proof {
                    if k > 53 {
                        lemma_pow2_strictly_increases(53, k as nat);
                    }
                    lemma_small_mod(sig as nat, pow2(k as nat));
                }
                return Number(Inner::Float(bits));
            }
            let p = power_of_two(k);
            proof {
                lemma_pow2_pos(k as nat);
            }
            if sig % p == 0 {
                signed(bits, sig / p)
            } else {
                Number(Inner::Float(bits))
            }
        }
    }

    /// Whether the floating-point value with these bits is zero, of
    /// either sign.
    pub fn float_is_zero(bits: u64) -> (b: bool)
        ensures
            b == is_zero(bits),
    {
        bits % 0x8000_0000_0000_0000 == 0
    }
}

} // verus!
