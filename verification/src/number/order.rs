//! Comparing and rounding numbers.

use vstd::prelude::*;
use core::cmp::Ordering;
use crate::number::bits::is_zero;
use crate::number::{Inner, IntegerType, Number};

verus! {

impl Number {
    /// The smallest integer that is not below the number. `None` for a
    /// floating-point value.
    pub fn ceil(self) -> (r: Option<IntegerType>)
        ensures
            r == match self.0 {
                Inner::Integer(i) => Some(i),
                Inner::Float(_) => None::<IntegerType>,
            },
    {
        match self.0 {
            Inner::Integer(i) => Some(i),
            Inner::Float(_) => None,
        }
    }

    /// The largest integer that is not above the number. `None` for a
    /// floating-point value.
    pub fn floor(self) -> (r: Option<IntegerType>)
        ensures
            r == match self.0 {
                Inner::Integer(i) => Some(i),
                Inner::Float(_) => None::<IntegerType>,
            },
    {
        match self.0 {
            Inner::Integer(i) => Some(i),
            Inner::Float(_) => None,
        }
    }

    /// Whether two numbers are numerically equal. Decided for two
    /// integers; `None` where either is a floating-point value.
    pub fn eql(&self, rhs: &Number) -> (r: Option<bool>)
        ensures
            r == match (self.0, rhs.0) {
                (Inner::Integer(l), Inner::Integer(r)) => Some(l == r),
                _ => None::<bool>,
            },
    {
        match (self.0, rhs.0) {
            (Inner::Integer(l), Inner::Integer(r)) => Some(l == r),
            _ => None,
        }
    }

    /// Whether the number is not zero. A floating-point zero of either
    /// sign is zero; a value that is not a number is not.
    pub fn is_truthy(&self) -> (r: bool)
        ensures
            r == match self.0 {
                Inner::Integer(i) => i != 0,
                Inner::Float(bits) => !is_zero(bits),
            },
    {
        match self.0 {
            Inner::Integer(i) => i != 0,
            Inner::Float(bits) => !Number::float_is_zero(bits),
        }
    }

    /// How the number stands to `rhs`. Decided for two integers; `None`
    /// where either is a floating-point value.
    pub fn cmp(&self, rhs: &Number) -> (r: Option<Ordering>)
        ensures
            r == match (self.0, rhs.0) {
                (Inner::Integer(l), Inner::Integer(r)) => Some(
                    if l < r {
                        Ordering::Less
                    } else if l == r {
                        Ordering::Equal
                    } else {
                        Ordering::Greater
                    },
                ),
                _ => None::<Ordering>,
            },
    {
        match (self.0, rhs.0) {
            (Inner::Integer(l), Inner::Integer(r)) => {
                if l < r {
                    Some(Ordering::Less)
                } else if l == r {
                    Some(Ordering::Equal)
                } else {
                    Some(Ordering::Greater)
                }
            },
            _ => None,
        }
    }
}

} // verus!
