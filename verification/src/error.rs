//! The closed set of error kinds shared by every component of the runtime.
//!
//! Every operation of the dispatch protocol reports failure through
//! [`Error`]; nothing unwinds across the dispatch boundary.

use vstd::prelude::*;
use crate::key::Key;
use crate::key::Literal;
use crate::object::{Kind, Object};
use crate::number::{NotAnInteger, ToStringRadixError};

verus! {

/// An attribute or argument was asked for that is not there.
#[derive(Debug, Clone, Copy)]
pub enum KeyError {
    /// `obj` resolves no attribute under `attr`, neither in its own table
    /// nor through its parents.
    DoesntExist { attr: Key, obj: Object },
    /// A positional argument was read past the end of the argument list.
    OutOfBounds { idx: usize, len: usize },
    /// The argument list carries no receiver.
    NoThisSupplied,
}

/// A value had the wrong native type for the operation.
#[derive(Debug, Clone, Copy)]
pub enum TypeError {
    /// A payload of type `expected` was needed and `got` was found.
    WrongType { expected: Kind, got: Kind },
    /// The conversion attribute `func` was called and its result is not of
    /// the type it converts to.
    ConversionReturnedBadType { func: Literal, expected: Kind, got: Kind },
    /// An attribute resolved to an object that cannot be called.
    NotCallable { got: Kind },
}

/// A value was of the right type and still unusable.
#[derive(Debug, Clone, Copy)]
pub enum ValueError {
    /// A radix outside `2..=36`.
    BadRadix(u32),
    /// A bitwise operation met a number that is not in integer
    /// representation.
    NotAnInteger(NotAnInteger),
    /// An integer remainder whose divisor is zero, or whose quotient does
    /// not fit.
    BadModulus,
}

/// What the internal error says where the parents of an object lead back
/// to it.
pub const PARENTS_CYCLE: &'static str = "the parents of an object lead back to it";

/// What the internal error says where a native function and its name do
/// not go together.
pub const NAME_MISMATCH: &'static str = "a native function and its name disagree";

/// What can go wrong in the runtime.
#[derive(Debug, Clone)]
#[non_exhaustive]
pub enum Error {
    /// An invariant of the runtime itself was broken. Not something user
    /// code can trigger or should recover from.
    Internal(&'static str),
    /// A free-form diagnostic without a kind of its own.
    Messaged(String),
    /// An attribute lookup failed.
    KeyError(KeyError),
    /// A downcast or conversion met the wrong type.
    TypeError(TypeError),
    /// A malformed value.
    ValueError(ValueError),
}

/// The result of every fallible runtime operation.
pub type Result<T> = core::result::Result<T, Error>;

impl From<String> for Error {
    fn from(err: String) -> (e: Error)
        ensures
            e == Error::Messaged(err),
    {
        Error::Messaged(err)
    }
}

impl vstd::std_specs::convert::FromSpecImpl<String> for Error {
    open spec fn obeys_from_spec() -> bool {
        true
    }

    open spec fn from_spec(err: String) -> Error {
        Error::Messaged(err)
    }
}

impl From<KeyError> for Error {
    fn from(err: KeyError) -> (e: Error)
        ensures
            e == Error::KeyError(err),
    {
        Error::KeyError(err)
    }
}

impl vstd::std_specs::convert::FromSpecImpl<KeyError> for Error {
    open spec fn obeys_from_spec() -> bool {
        true
    }

    open spec fn from_spec(err: KeyError) -> Error {
        Error::KeyError(err)
    }
}

impl From<TypeError> for Error {
    fn from(err: TypeError) -> (e: Error)
        ensures
            e == Error::TypeError(err),
    {
        Error::TypeError(err)
    }
}

impl vstd::std_specs::convert::FromSpecImpl<TypeError> for Error {
    open spec fn obeys_from_spec() -> bool {
        true
    }

    open spec fn from_spec(err: TypeError) -> Error {
        Error::TypeError(err)
    }
}

impl From<ValueError> for Error {
    fn from(err: ValueError) -> (e: Error)
        ensures
            e == Error::ValueError(err),
    {
        Error::ValueError(err)
    }
}

impl vstd::std_specs::convert::FromSpecImpl<ValueError> for Error {
    open spec fn obeys_from_spec() -> bool {
        true
    }

    open spec fn from_spec(err: ValueError) -> Error {
        Error::ValueError(err)
    }
}

impl From<NotAnInteger> for Error {
    fn from(err: NotAnInteger) -> (e: Error)
        ensures
            e == Error::ValueError(ValueError::NotAnInteger(err)),
    {
        Error::ValueError(ValueError::NotAnInteger(err))
    }
}

impl vstd::std_specs::convert::FromSpecImpl<NotAnInteger> for Error {
    open spec fn obeys_from_spec() -> bool {
        true
    }

    open spec fn from_spec(err: NotAnInteger) -> Error {
        Error::ValueError(ValueError::NotAnInteger(err))
    }
}

impl From<ToStringRadixError> for Error {
    fn from(err: ToStringRadixError) -> (e: Error)
        ensures
            e == match err {
                ToStringRadixError::InvalidRadix(radix) => Error::ValueError(
                    ValueError::BadRadix(radix),
                ),
                ToStringRadixError::NotAnInteger(n) => Error::ValueError(
                    ValueError::NotAnInteger(n),
                ),
            },
    {
        match err {
            ToStringRadixError::InvalidRadix(radix) => Error::ValueError(ValueError::BadRadix(radix)),
            ToStringRadixError::NotAnInteger(n) => Error::ValueError(ValueError::NotAnInteger(n)),
        }
    }
}

impl vstd::std_specs::convert::FromSpecImpl<ToStringRadixError> for Error {
    open spec fn obeys_from_spec() -> bool {
        true
    }

    open spec fn from_spec(err: ToStringRadixError) -> Error {
        match err {
            ToStringRadixError::InvalidRadix(radix) => Error::ValueError(ValueError::BadRadix(radix)),
            ToStringRadixError::NotAnInteger(n) => Error::ValueError(ValueError::NotAnInteger(n)),
        }
    }
}

impl Error {
    /// Whether this error reports a broken invariant of the runtime, which
    /// is fatal to the operation rather than something to retry.
    pub fn is_internal(&self) -> (b: bool)
        ensures
            b == (self is Internal),
    {
        match self {
            Error::Internal(_) => true,
            _ => false,
        }
    }
}

} // verus!
