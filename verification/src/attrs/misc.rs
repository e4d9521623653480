//! Capabilities that are neither operators nor conversions.

use vstd::prelude::*;
use crate::args::Args;
use crate::error::Result;
use crate::heap::Heap;
use crate::key::Literal;
use crate::object::Object;
use crate::step::{call_kept, call_ready, Step};

verus! {

/// The hash of a value, `hash`.
pub trait Hash {
    const METHOD: Literal = "hash";

    fn call(heap: &mut Heap, this: Object, args: &Args) -> (r: Result<Step>)
        requires
            call_ready(old(heap), this, args),
        ensures
            call_kept(old(heap), final(heap), r),
    ;
}

} // verus!
