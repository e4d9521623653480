//! The boolean value type.

use vstd::prelude::*;
use core::cmp::Ordering;
use crate::number::{is_zero, Inner, Number};

verus! {

/// The number of a boolean: one for true, zero for false.
pub open spec fn number_of(b: Boolean) -> Number {
    Number(
        Inner::Integer(
            if b.0 {
                1
            } else {
                0
            },
        ),
    )
}

/// The boolean of a number: true where the number is not zero. A
/// floating-point zero of either sign is zero; a value that is not a
/// number is not.
pub open spec fn truth_of(n: Number) -> Boolean {
    match n.0 {
        Inner::Integer(i) => Boolean(i != 0),
        Inner::Float(bits) => Boolean(!is_zero(bits)),
    }
}

/// A boolean: a wrapper of one bit with the operators of the runtime.
#[derive(Debug, Clone, Copy, PartialEq, Eq, PartialOrd, Ord, Hash, Structural)]
pub struct Boolean(pub bool);

impl Boolean {
    /// Wraps a `bool`.
    pub fn new(b: bool) -> (r: Boolean)
        ensures
            r == Boolean(b),
    {
        Boolean(b)
    }

    /// Unwraps the value.
    pub fn into_inner(self) -> (b: bool)
        ensures
            b == self.0,
    {
        self.0
    }

    /// Logical NOT.
    pub fn not(self) -> (r: Boolean)
        ensures
            r == Boolean(!self.0),
    {
        Boolean(!self.0)
    }

    /// Logical AND.
    pub fn bitand(self, rhs: Boolean) -> (r: Boolean)
        ensures
            r == Boolean(self.0 && rhs.0),
    {
        Boolean(self.0 && rhs.0)
    }

    /// Logical OR.
    pub fn bitor(self, rhs: Boolean) -> (r: Boolean)
        ensures
            r == Boolean(self.0 || rhs.0),
    {
        Boolean(self.0 || rhs.0)
    }

    /// Logical XOR.
    pub fn bitxor(self, rhs: Boolean) -> (r: Boolean)
        ensures
            r == Boolean(self.0 != rhs.0),
    {
        Boolean(self.0 != rhs.0)
    }

    /// Whether two booleans hold the same value.
    pub fn eql(self, rhs: Boolean) -> (r: Boolean)
        ensures
            r == Boolean(self.0 == rhs.0),
    {
        Boolean(self.0 == rhs.0)
    }

    /// How the boolean stands to `rhs`, with false below true.
    pub fn compare(self, rhs: Boolean) -> (r: Ordering)
        ensures
            r == if self.0 == rhs.0 {
                Ordering::Equal
            } else if rhs.0 {
                Ordering::Less
            } else {
                Ordering::Greater
            },
    {
        if self.0 == rhs.0 {
            Ordering::Equal
        } else if rhs.0 {
            Ordering::Less
        } else {
            Ordering::Greater
        }
    }

    /// The text of the boolean: `"true"` or `"false"`.
    pub fn to_text(self) -> (s: &'static str)
        ensures
            s@ == if self.0 {
                "true"@
            } else {
                "false"@
            },
    {
        if self.0 {
            "true"
        } else {
            "false"
        }
    }

    /// The number of the boolean: one for true, zero for false.
    pub fn to_number(self) -> (n: Number)
        ensures
            n == number_of(self),
    {
        if self.0 {
            Number::one()
        } else {
            Number::zero()
        }
    }

    /// The boolean of a number: true where it is not zero.
    pub fn from_number(n: Number) -> (r: Boolean)
        ensures
            r == truth_of(n),
    {
        Boolean(n.is_truthy())
    }
}

impl Default for Boolean {
    fn default() -> (r: Boolean)
        ensures
            r == Boolean(false),
    {
        Boolean(false)
    }
}

impl From<bool> for Boolean {
    fn from(b: bool) -> (r: Boolean)
        ensures
            r == Boolean(b),
    {
        Boolean(b)
    }
}

impl vstd::std_specs::convert::FromSpecImpl<bool> for Boolean {
    open spec fn obeys_from_spec() -> bool {
        true
    }

    open spec fn from_spec(b: bool) -> Boolean {
        Boolean(b)
    }
}

impl From<Boolean> for bool {
    fn from(b: Boolean) -> (r: bool)
        ensures
            r == b.0,
    {
        b.0
    }
}

impl vstd::std_specs::convert::FromSpecImpl<Boolean> for bool {
    open spec fn obeys_from_spec() -> bool {
        true
    }

    open spec fn from_spec(b: Boolean) -> bool {
        b.0
    }
}

impl From<Boolean> for Number {
    fn from(b: Boolean) -> (n: Number)
        ensures
            n == number_of(b),
    {
        b.to_number()
    }
}

impl vstd::std_specs::convert::FromSpecImpl<Boolean> for Number {
    open spec fn obeys_from_spec() -> bool {
        true
    }

    open spec fn from_spec(b: Boolean) -> Number {
        number_of(b)
    }
}

impl From<Number> for Boolean {
    fn from(n: Number) -> (r: Boolean)
        ensures
            r == truth_of(n),
    {
        Boolean::from_number(n)
    }
}

impl vstd::std_specs::convert::FromSpecImpl<Number> for Boolean {
    open spec fn obeys_from_spec() -> bool {
        true
    }

    open spec fn from_spec(n: Number) -> Boolean {
        truth_of(n)
    }
}

/// Whether a number is zero: the integer zero, or a floating-point zero
/// of either sign.
pub open spec fn number_is_zero(n: Number) -> bool {
    match n.0 {
        Inner::Integer(i) => i == 0,
        Inner::Float(bits) => is_zero(bits),
    }
}

/// The boolean of a number is true exactly where the number is not zero,
/// however the number is held. The number of true is the integer one and
/// that of false the integer zero. The boolean of the number of a boolean
/// is that boolean; the number of the boolean of a number is held as that
/// number is exactly for the integers zero and one.
pub proof fn lemma_boolean_number_round_trip(b: Boolean, n: Number)
    ensures
        truth_of(n).0 <==> !number_is_zero(n),
        number_of(Boolean(true)) == Number(Inner::Integer(1)),
        number_of(Boolean(false)) == Number(Inner::Integer(0)),
        truth_of(number_of(b)) == b,
        number_of(truth_of(n)) == n <==> n == Number(Inner::Integer(0)) || n == Number(
            Inner::Integer(1),
        ),
{
}

} // verus!
