//! Conversions of native values that need no store.

use vstd::prelude::*;
use crate::args::Args;
use crate::boolean::{truth_of, Boolean};
use crate::key::Literal;
use crate::number::Number;

verus! {

/// The error of an operation that cannot fail. There is no value of this
/// type outside this module, so a result that carries it is always `Ok`.
#[derive(Debug)]
pub struct Never {
    nothing: (),
}

/// Cloning, `clone`. It cannot fail.
pub trait QsClone: Sized + Clone {
    const KEY: Literal = "clone";

    /// Clone this value.
    fn qs_clone(&self, args: &Args) -> (r: core::result::Result<Self, Never>)
        ensures
            r matches Ok(copy) && cloned(*self, copy),
    ;
}

impl<T: Clone> QsClone for T {
    fn qs_clone(&self, args: &Args) -> (r: core::result::Result<Self, Never>) {
        Ok(self.clone())
    }
}

/// Conversion to a boolean, `@bool`, of a native value.
pub trait QsAtBool {
    const KEY: Literal = "@bool";

    /// What the value converts to.
    spec fn qs_at_bool_spec(&self) -> Boolean;

    fn qs_at_bool(&self, args: &Args) -> (r: Boolean)
        ensures
            r == self.qs_at_bool_spec(),
    ;
}

impl QsAtBool for Boolean {
    open spec fn qs_at_bool_spec(&self) -> Boolean {
        *self
    }

    fn qs_at_bool(&self, args: &Args) -> (r: Boolean) {
        *self
    }
}

impl QsAtBool for Number {
    open spec fn qs_at_bool_spec(&self) -> Boolean {
        truth_of(*self)
    }

    fn qs_at_bool(&self, args: &Args) -> (r: Boolean) {
        Boolean::from_number(*self)
    }
}

/// Conversion to a number, `@num`, of a native value.
pub trait QsAtNum {
    const KEY: Literal = "@num";

    /// What the value converts to.
    spec fn qs_at_num_spec(&self) -> Number;

    fn qs_at_num(&self, args: &Args) -> (r: Number)
        ensures
            r == self.qs_at_num_spec(),
    ;
}

impl QsAtNum for Boolean {
    open spec fn qs_at_num_spec(&self) -> Number {
        crate::boolean::number_of(*self)
    }

    fn qs_at_num(&self, args: &Args) -> (r: Number) {
        self.to_number()
    }
}

impl QsAtNum for Number {
    open spec fn qs_at_num_spec(&self) -> Number {
        *self
    }

    fn qs_at_num(&self, args: &Args) -> (r: Number) {
        *self
    }
}

} // verus!
