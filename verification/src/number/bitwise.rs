//! The bitwise operators, which work on integers only.

use vstd::prelude::*;
use crate::number::{Inner, NotAnInteger, Number};
use crate::rustfn::BitOp;

verus! {

/// The number of bits that a shift by `r` moves: the low six bits of `r`.
pub open spec fn shift_amount(r: i64) -> u32 {
    (r & 63) as u32
}

/// The low six bits of `r`.
fn low_six_bits(r: i64) -> (by: u32)
    ensures
        by == shift_amount(r),
        by < 64,
{
    let by: u32 = (r & 63) as u32;
    assert(by < 64) by (bit_vector)
        requires
            by == (r & 63) as u32,
    ;
    by
}

/// What a bitwise operator gives on two integers.
pub open spec fn integer_bitwise(op: BitOp, l: i64, r: i64) -> i64 {
    match op {
        BitOp::And => l & r,
        BitOp::Or => l | r,
        BitOp::Xor => l ^ r,
        BitOp::Shl => l << shift_amount(r),
        BitOp::Shr => l >> shift_amount(r),
    }
}

/// What a bitwise operator gives on two numbers: a floating-point operand
/// is refused, the left one first.
pub open spec fn bitwise(op: BitOp, l: Number, r: Number) -> Result<Number, NotAnInteger> {
    match (l.0, r.0) {
        (Inner::Float(f), _) => Err(NotAnInteger(f)),
        (Inner::Integer(_), Inner::Float(g)) => Err(NotAnInteger(g)),
        (Inner::Integer(a), Inner::Integer(b)) => Ok(Number(Inner::Integer(integer_bitwise(op, a, b)))),
    }
}

impl Number {
    /// The bitwise complement of an integer. A floating-point value is
    /// refused.
    pub fn not(self) -> (r: Result<Number, NotAnInteger>)
        ensures
            r == match self.0 {
                Inner::Integer(i) => Ok::<Number, NotAnInteger>(Number(Inner::Integer(!i))),
                Inner::Float(f) => Err(NotAnInteger(f)),
            },
    {
        match self.0 {
            Inner::Integer(i) => Ok(Number(Inner::Integer(!i))),
            Inner::Float(f) => Err(NotAnInteger(f)),
        }
    }

    /// The bitwise and of two integers. A floating-point operand is refused,
    /// the left one first.
    pub fn bitand(self, rhs: Number) -> (r: Result<Number, NotAnInteger>)
        ensures
            r == match (self.0, rhs.0) {
                (Inner::Float(f), _) => Err::<Number, NotAnInteger>(NotAnInteger(f)),
                (Inner::Integer(_), Inner::Float(g)) => Err(NotAnInteger(g)),
                (Inner::Integer(l), Inner::Integer(r)) => Ok(Number(Inner::Integer(l & r))),
            },
    {
        match (self.0, rhs.0) {
            (Inner::Float(f), _) => Err(NotAnInteger(f)),
            (Inner::Integer(_), Inner::Float(g)) => Err(NotAnInteger(g)),
            (Inner::Integer(l), Inner::Integer(r)) => Ok(Number(Inner::Integer(l & r))),
        }
    }

    /// Replaces an integer by its bitwise and with `rhs`. Where an operand is
    /// refused the number stays as it was.
    pub fn bitand_assign(&mut self, rhs: Number) -> (r: Result<(), NotAnInteger>)
        ensures
            match (old(self).0, rhs.0) {
                (Inner::Float(f), _) => r == Err::<(), NotAnInteger>(NotAnInteger(f))
                    && *final(self) == *old(self),
                (Inner::Integer(_), Inner::Float(g)) => r == Err::<(), NotAnInteger>(
                    NotAnInteger(g),
                ) && *final(self) == *old(self),
                (Inner::Integer(l), Inner::Integer(r2)) => r == Ok::<(), NotAnInteger>(())
                    && *final(self) == Number(Inner::Integer(l & r2)),
            },
    {
        match self.bitand(rhs) {
            Ok(n) => {
                *self = n;
                Ok(())
            },
            Err(e) => Err(e),
        }
    }

    /// The bitwise or of two integers. A floating-point operand is refused,
    /// the left one first.
    pub fn bitor(self, rhs: Number) -> (r: Result<Number, NotAnInteger>)
        ensures
            r == match (self.0, rhs.0) {
                (Inner::Float(f), _) => Err::<Number, NotAnInteger>(NotAnInteger(f)),
                (Inner::Integer(_), Inner::Float(g)) => Err(NotAnInteger(g)),
                (Inner::Integer(l), Inner::Integer(r)) => Ok(Number(Inner::Integer(l | r))),
            },
    {
        match (self.0, rhs.0) {
            (Inner::Float(f), _) => Err(NotAnInteger(f)),
            (Inner::Integer(_), Inner::Float(g)) => Err(NotAnInteger(g)),
            (Inner::Integer(l), Inner::Integer(r)) => Ok(Number(Inner::Integer(l | r))),
        }
    }

    /// Replaces an integer by its bitwise or with `rhs`. Where an operand is
    /// refused the number stays as it was.
    pub fn bitor_assign(&mut self, rhs: Number) -> (r: Result<(), NotAnInteger>)
        ensures
            match (old(self).0, rhs.0) {
                (Inner::Float(f), _) => r == Err::<(), NotAnInteger>(NotAnInteger(f))
                    && *final(self) == *old(self),
                (Inner::Integer(_), Inner::Float(g)) => r == Err::<(), NotAnInteger>(
                    NotAnInteger(g),
                ) && *final(self) == *old(self),
                (Inner::Integer(l), Inner::Integer(r2)) => r == Ok::<(), NotAnInteger>(())
                    && *final(self) == Number(Inner::Integer(l | r2)),
            },
    {
        match self.bitor(rhs) {
            Ok(n) => {
                *self = n;
                Ok(())
            },
            Err(e) => Err(e),
        }
    }

    /// The bitwise exclusive or of two integers. A floating-point operand is refused,
    /// the left one first.
    pub fn bitxor(self, rhs: Number) -> (r: Result<Number, NotAnInteger>)
        ensures
            r == match (self.0, rhs.0) {
                (Inner::Float(f), _) => Err::<Number, NotAnInteger>(NotAnInteger(f)),
                (Inner::Integer(_), Inner::Float(g)) => Err(NotAnInteger(g)),
                (Inner::Integer(l), Inner::Integer(r)) => Ok(Number(Inner::Integer(l ^ r))),
            },
    {
        match (self.0, rhs.0) {
            (Inner::Float(f), _) => Err(NotAnInteger(f)),
            (Inner::Integer(_), Inner::Float(g)) => Err(NotAnInteger(g)),
            (Inner::Integer(l), Inner::Integer(r)) => Ok(Number(Inner::Integer(l ^ r))),
        }
    }

    /// Replaces an integer by its bitwise exclusive or with `rhs`. Where an operand is
    /// refused the number stays as it was.
    pub fn bitxor_assign(&mut self, rhs: Number) -> (r: Result<(), NotAnInteger>)
        ensures
            match (old(self).0, rhs.0) {
                (Inner::Float(f), _) => r == Err::<(), NotAnInteger>(NotAnInteger(f))
                    && *final(self) == *old(self),
                (Inner::Integer(_), Inner::Float(g)) => r == Err::<(), NotAnInteger>(
                    NotAnInteger(g),
                ) && *final(self) == *old(self),
                (Inner::Integer(l), Inner::Integer(r2)) => r == Ok::<(), NotAnInteger>(())
                    && *final(self) == Number(Inner::Integer(l ^ r2)),
            },
    {
        match self.bitxor(rhs) {
            Ok(n) => {
                *self = n;
                Ok(())
            },
            Err(e) => Err(e),
        }
    }

    /// An integer shifted left by `rhs` bits, of which the low six bits count.
    /// A floating-point operand is refused, the left one first.
    pub fn shl(self, rhs: Number) -> (r: Result<Number, NotAnInteger>)
        ensures
            r == match (self.0, rhs.0) {
                (Inner::Float(f), _) => Err::<Number, NotAnInteger>(NotAnInteger(f)),
                (Inner::Integer(_), Inner::Float(g)) => Err(NotAnInteger(g)),
                (Inner::Integer(l), Inner::Integer(r)) => Ok(
                    Number(Inner::Integer(l << shift_amount(r))),
                ),
            },
    {
        match (self.0, rhs.0) {
            (Inner::Float(f), _) => Err(NotAnInteger(f)),
            (Inner::Integer(_), Inner::Float(g)) => Err(NotAnInteger(g)),
            (Inner::Integer(l), Inner::Integer(r)) => {
                let by = low_six_bits(r);
                Ok(Number(Inner::Integer(l << by)))
            },
        }
    }

    /// Replaces an integer by itself shifted left by `rhs` bits. Where an
    /// operand is refused the number stays as it was.
    pub fn shl_assign(&mut self, rhs: Number) -> (r: Result<(), NotAnInteger>)
        ensures
            match (old(self).0, rhs.0) {
                (Inner::Float(f), _) => r == Err::<(), NotAnInteger>(NotAnInteger(f))
                    && *final(self) == *old(self),
                (Inner::Integer(_), Inner::Float(g)) => r == Err::<(), NotAnInteger>(
                    NotAnInteger(g),
                ) && *final(self) == *old(self),
                (Inner::Integer(l), Inner::Integer(r2)) => r == Ok::<(), NotAnInteger>(())
                    && *final(self) == Number(Inner::Integer(l << shift_amount(r2))),
            },
    {
        match self.shl(rhs) {
            Ok(n) => {
                *self = n;
                Ok(())
            },
            Err(e) => Err(e),
        }
    }

    /// An integer shifted right, the sign kept, by `rhs` bits, of which the low six bits count.
    /// A floating-point operand is refused, the left one first.
    pub fn shr(self, rhs: Number) -> (r: Result<Number, NotAnInteger>)
        ensures
            r == match (self.0, rhs.0) {
                (Inner::Float(f), _) => Err::<Number, NotAnInteger>(NotAnInteger(f)),
                (Inner::Integer(_), Inner::Float(g)) => Err(NotAnInteger(g)),
                (Inner::Integer(l), Inner::Integer(r)) => Ok(
                    Number(Inner::Integer(l >> shift_amount(r))),
                ),
            },
    {
        match (self.0, rhs.0) {
            (Inner::Float(f), _) => Err(NotAnInteger(f)),
            (Inner::Integer(_), Inner::Float(g)) => Err(NotAnInteger(g)),
            (Inner::Integer(l), Inner::Integer(r)) => {
                let by = low_six_bits(r);
                Ok(Number(Inner::Integer(l >> by)))
            },
        }
    }

    /// Replaces an integer by itself shifted right, the sign kept, by `rhs` bits. Where an
    /// operand is refused the number stays as it was.
    pub fn shr_assign(&mut self, rhs: Number) -> (r: Result<(), NotAnInteger>)
        ensures
            match (old(self).0, rhs.0) {
                (Inner::Float(f), _) => r == Err::<(), NotAnInteger>(NotAnInteger(f))
                    && *final(self) == *old(self),
                (Inner::Integer(_), Inner::Float(g)) => r == Err::<(), NotAnInteger>(
                    NotAnInteger(g),
                ) && *final(self) == *old(self),
                (Inner::Integer(l), Inner::Integer(r2)) => r == Ok::<(), NotAnInteger>(())
                    && *final(self) == Number(Inner::Integer(l >> shift_amount(r2))),
            },
    {
        match self.shr(rhs) {
            Ok(n) => {
                *self = n;
                Ok(())
            },
            Err(e) => Err(e),
        }
    }

    /// The number under the bitwise operator `op` with `rhs`.
    pub fn bitwise(self, op: BitOp, rhs: Number) -> (r: Result<Number, NotAnInteger>)
        ensures
            r == bitwise(op, self, rhs),
    {
        match op {
            BitOp::And => self.bitand(rhs),
            BitOp::Or => self.bitor(rhs),
            BitOp::Xor => self.bitxor(rhs),
            BitOp::Shl => self.shl(rhs),
            BitOp::Shr => self.shr(rhs),
        }
    }
}

} // verus!
