//! The calling convention: a receiver and positional arguments.

use vstd::prelude::*;
use crate::error::{Error, KeyError, Result};
use crate::object::Object;
use crate::rustfn::RustFn;

verus! {

/// The arguments of a call: the receiver, if there is one, and the
/// positional arguments.
#[derive(Debug)]
pub struct Args {
    pub this: Option<Object>,
    pub args: Vec<Object>,
}

/// A native function together with the arguments to call it with.
#[derive(Debug)]
pub struct Invocation {
    pub func: RustFn,
    pub args: Args,
}

impl Args {
    /// Positional arguments without a receiver.
    pub fn new(args: Vec<Object>) -> (a: Args)
        ensures
            a.this.is_none(),
            a.args@ == args@,
    {
        Args { this: None, args }
    }

    /// Positional arguments with `this` as the receiver.
    pub fn new_with_this(this: Object, args: Vec<Object>) -> (a: Args)
        ensures
            a.this == Some(this),
            a.args@ == args@,
    {
        Args { this: Some(this), args }
    }

    /// Every object of the arguments names a cell of a store with `len`
    /// cells.
    pub open spec fn within(&self, len: nat) -> bool {
        &&& self.this matches Some(o) ==> o.id < len
        &&& forall|i: int| 0 <= i < self.args@.len() ==> (#[trigger] self.args@[i]).id < len
    }

    /// How many positional arguments there are.
    pub fn len(&self) -> (n: usize)
        ensures
            n == self.args@.len(),
    {
        self.args.len()
    }

    /// The receiver of the call.
    pub fn this(&self) -> (r: Result<Object>)
        ensures
            r == match self.this {
                Some(o) => Ok::<Object, Error>(o),
                None => Err(Error::KeyError(KeyError::NoThisSupplied)),
            },
    {
        match self.this {
            Some(o) => Ok(o),
            None => Err(Error::KeyError(KeyError::NoThisSupplied)),
        }
    }

    /// The positional argument at `idx`.
    pub fn arg(&self, idx: usize) -> (r: Result<Object>)
        ensures
            r == if idx < self.args@.len() {
                Ok::<Object, Error>(self.args@[idx as int])
            } else {
                Err(
                    Error::KeyError(
                        KeyError::OutOfBounds { idx, len: self.args@.len() as usize },
                    ),
                )
            },
    {
        if idx < self.args.len() {
            Ok(self.args[idx])
        } else {
            Err(Error::KeyError(KeyError::OutOfBounds { idx, len: self.args.len() }))
        }
    }

    /// The positional arguments from `start` on, without a receiver.
    /// There are none from the end on; past the end is out of bounds.
    pub fn args_from(&self, start: usize) -> (r: Result<Args>)
        ensures
            if start <= self.args@.len() {
                r matches Ok(a) && a.this.is_none() && a.args@ == self.args@.skip(start as int)
            } else {
                r matches Err(e) && e == Error::KeyError(
                    KeyError::OutOfBounds { idx: start, len: self.args@.len() as usize },
                )
            },
    {
        if start > self.args.len() {
            return Err(Error::KeyError(KeyError::OutOfBounds { idx: start, len: self.args.len() }));
        }
        let mut rest: Vec<Object> = Vec::new();
        let mut i: usize = start;
        while i < self.args.len()
            invariant
                start <= i <= self.args.len(),
                rest@ == self.args@.subrange(start as int, i as int),
            decreases self.args.len() - i,
        {
            rest.push(self.args[i]);
            assert(self.args@.subrange(start as int, i as int + 1) =~= self.args@.subrange(
                start as int,
                i as int,
            ).push(self.args@[i as int]));
            i += 1;
        }
        assert(self.args@.subrange(start as int, self.args@.len() as int) =~= self.args@.skip(
            start as int,
        ));
        Ok(Args { this: None, args: rest })
    }

    /// The same arguments with the positional argument at `idx` replaced
    /// by `obj`.
    pub fn with_arg(&self, idx: usize, obj: Object) -> (a: Args)
        requires
            idx < self.args@.len(),
        ensures
            a.this == self.this,
            a.args@ == self.args@.update(idx as int, obj),
    {
        let mut args = self.args.clone();
        args.set(idx, obj);
        Args { this: self.this, args }
    }

    /// The same arguments again.
    pub fn duplicate(&self) -> (a: Args)
        ensures
            a.this == self.this,
            a.args@ == self.args@,
    {
        Args { this: self.this, args: self.args.clone() }
    }
}

} // verus!
