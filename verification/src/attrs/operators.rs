//! The operators that a type can take part in.

use vstd::prelude::*;
use crate::args::Args;
use crate::error::Result;
use crate::heap::Heap;
use crate::key::Literal;
use crate::object::Object;
use crate::step::{call_kept, call_ready, Step};

verus! {

/// Equality, `==`. The argument is not converted: an argument of another
/// type is not equal.
pub trait Eql {
    const METHOD: Literal = "==";

    fn call(heap: &mut Heap, this: Object, args: &Args) -> (r: Result<Step>)
        requires
            call_ready(old(heap), this, args),
        ensures
            call_kept(old(heap), final(heap), r),
    ;
}

/// Comparison, `<=>`.
pub trait Cmp {
    const METHOD: Literal = "<=>";

    fn call(heap: &mut Heap, this: Object, args: &Args) -> (r: Result<Step>)
        requires
            call_ready(old(heap), this, args),
        ensures
            call_kept(old(heap), final(heap), r),
    ;
}

/// Logical negation, `!`.
pub trait Not {
    const METHOD: Literal = "!";

    fn call(heap: &mut Heap, this: Object, args: &Args) -> (r: Result<Step>)
        requires
            call_ready(old(heap), this, args),
        ensures
            call_kept(old(heap), final(heap), r),
    ;
}

/// Bitwise and, `&`.
pub trait BitAnd {
    const METHOD: Literal = "&";

    fn call(heap: &mut Heap, this: Object, args: &Args) -> (r: Result<Step>)
        requires
            call_ready(old(heap), this, args),
        ensures
            call_kept(old(heap), final(heap), r),
    ;
}

/// Bitwise and in place, `&=`.
pub trait BitAndAssign {
    const METHOD: Literal = "&=";

    fn call(heap: &mut Heap, this: Object, args: &Args) -> (r: Result<Step>)
        requires
            call_ready(old(heap), this, args),
        ensures
            call_kept(old(heap), final(heap), r),
    ;
}

/// Bitwise or, `|`.
pub trait BitOr {
    const METHOD: Literal = "|";

    fn call(heap: &mut Heap, this: Object, args: &Args) -> (r: Result<Step>)
        requires
            call_ready(old(heap), this, args),
        ensures
            call_kept(old(heap), final(heap), r),
    ;
}

/// Bitwise or in place, `|=`.
pub trait BitOrAssign {
    const METHOD: Literal = "|=";

    fn call(heap: &mut Heap, this: Object, args: &Args) -> (r: Result<Step>)
        requires
            call_ready(old(heap), this, args),
        ensures
            call_kept(old(heap), final(heap), r),
    ;
}

/// Bitwise exclusive or, `^`.
pub trait BitXor {
    const METHOD: Literal = "^";

    fn call(heap: &mut Heap, this: Object, args: &Args) -> (r: Result<Step>)
        requires
            call_ready(old(heap), this, args),
        ensures
            call_kept(old(heap), final(heap), r),
    ;
}

/// Bitwise exclusive or in place, `^=`.
pub trait BitXorAssign {
    const METHOD: Literal = "^=";

    fn call(heap: &mut Heap, this: Object, args: &Args) -> (r: Result<Step>)
        requires
            call_ready(old(heap), this, args),
        ensures
            call_kept(old(heap), final(heap), r),
    ;
}

} // verus!
