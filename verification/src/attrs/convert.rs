//! The conversions that a type can offer.

use vstd::prelude::*;
use crate::args::Args;
use crate::error::Result;
use crate::heap::Heap;
use crate::key::Literal;
use crate::object::Object;
use crate::step::{call_kept, call_ready, Step};

verus! {

/// A text that shows the value to a developer, `__inspect__`.
pub trait Inspect {
    const METHOD: Literal = "__inspect__";

    fn call(heap: &mut Heap, this: Object, args: &Args) -> (r: Result<Step>)
        requires
            call_ready(old(heap), this, args),
        ensures
            call_kept(old(heap), final(heap), r),
    ;
}

/// Conversion to text, `@text`.
pub trait AtText {
    const METHOD: Literal = "@text";

    fn call(heap: &mut Heap, this: Object, args: &Args) -> (r: Result<Step>)
        requires
            call_ready(old(heap), this, args),
        ensures
            call_kept(old(heap), final(heap), r),
    ;
}

/// Conversion to a boolean, `@bool`.
pub trait AtBoolean {
    const METHOD: Literal = "@bool";

    fn call(heap: &mut Heap, this: Object, args: &Args) -> (r: Result<Step>)
        requires
            call_ready(old(heap), this, args),
        ensures
            call_kept(old(heap), final(heap), r),
    ;
}

/// Conversion to a number, `@num`.
pub trait AtNumber {
    const METHOD: Literal = "@num";

    fn call(heap: &mut Heap, this: Object, args: &Args) -> (r: Result<Step>)
        requires
            call_ready(old(heap), this, args),
        ensures
            call_kept(old(heap), final(heap), r),
    ;
}

/// Conversion to a list, `@list`.
pub trait AtList {
    const METHOD: Literal = "@list";

    fn call(heap: &mut Heap, this: Object, args: &Args) -> (r: Result<Step>)
        requires
            call_ready(old(heap), this, args),
        ensures
            call_kept(old(heap), final(heap), r),
    ;
}

} // verus!
