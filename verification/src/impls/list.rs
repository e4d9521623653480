//! The native functions of lists.

use vstd::prelude::*;
use crate::args::Args;
use crate::attrs::convert;
use crate::error::{Error, Result, TypeError};
use crate::heap::Heap;
use crate::object::{Kind, Object, ValueView};
use crate::step::{fails, Step};
use crate::store::payload;

verus! {

/// The error of a receiver that holds `value`, which is no list.
pub open spec fn not_a_list(value: ValueView) -> Error {
    Error::TypeError(TypeError::WrongType { expected: Kind::List, got: value.kind() })
}

impl convert::AtList for Vec<Object> {
    /// The list of a list: the receiver itself.
    fn call(heap: &mut Heap, this: Object, args: &Args) -> (r: Result<Step>)
        ensures
            match payload(old(heap)@, this) {
                ValueView::List(_) => r matches Ok(Step::Done(o)) && o == this && final(heap)@
                    == old(heap)@,
                other => fails(old(heap), final(heap), r, not_a_list(other)),
            },
    {
        match heap.downcast_list(this) {
            Some(_) => Ok(Step::Done(this)),
            None => Err(
                Error::TypeError(
                    TypeError::WrongType { expected: Kind::List, got: heap.kind(this) },
                ),
            ),
        }
    }
}

} // verus!
