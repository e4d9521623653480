//! The native functions of native functions.

use vstd::prelude::*;
use crate::args::{Args, Invocation};
use crate::error::{Error, Result, TypeError};
use crate::heap::Heap;
use crate::object::{Kind, ValueView};
use crate::rustfn::RustFn;
use crate::step::{args_ready, call_kept, fails, make_text, makes, no_receiver, Step};
use crate::store::payload;

verus! {

/// The error of a receiver that holds `value`, which is no native
/// function.
pub open spec fn not_a_rustfn(value: ValueView) -> Error {
    Error::TypeError(TypeError::WrongType { expected: Kind::RustFn, got: value.kind() })
}

/// What a function of a native-function receiver does: it fails without
/// a receiver, and on one that holds no native function; on a native
/// function it does what `next` says.
pub open spec fn on_rustfn(
    before: &Heap,
    after: &Heap,
    args: &Args,
    r: Result<Step>,
    next: spec_fn(RustFn) -> bool,
) -> bool {
    match args.this {
        None => fails(before, after, r, no_receiver()),
        Some(this) => match payload(before@, this) {
            ValueView::RustFn(f) => next(f),
            other => fails(before, after, r, not_a_rustfn(other)),
        },
    }
}

/// The native function that the receiver of `args` holds.
fn this_rustfn(heap: &Heap, args: &Args) -> (r: Result<RustFn>)
    requires
        args_ready(heap, args),
    ensures
        match args.this {
            None => r matches Err(e) && e == no_receiver(),
            Some(this) => match payload(heap@, this) {
                ValueView::RustFn(f) => r == Ok::<RustFn, Error>(f),
                other => r matches Err(e) && e == not_a_rustfn(other),
            },
        },
{
    match args.this() {
        Ok(this) => heap.try_downcast_rustfn(this),
        Err(e) => Err(e),
    }
}

/// What [`call`] does.
pub open spec fn call_spec(before: &Heap, after: &Heap, args: &Args, r: Result<Step>) -> bool {
    &&& after@ == before@
    &&& on_rustfn(
        before,
        after,
        args,
        r,
        |f: RustFn|
            r matches Ok(Step::Call(inner)) && inner.func == f && inner.args.this.is_none()
                && inner.args.args@ == args.args@,
    )
}

/// Calls the receiver: the result is that of the native function it
/// holds, called with the positional arguments and without a receiver.
pub fn call(heap: &mut Heap, args: &Args) -> (r: Result<Step>)
    requires
        args_ready(old(heap), args),
    ensures
        call_kept(old(heap), final(heap), r),
        call_spec(old(heap), final(heap), args, r),
{
    match this_rustfn(heap, args) {
        Ok(f) => Ok(Step::Call(Invocation { func: f, args: Args::new(args.args.clone()) })),
        Err(e) => Err(e),
    }
}

/// What [`at_text`] does.
pub open spec fn at_text_spec(before: &Heap, after: &Heap, args: &Args, r: Result<Step>) -> bool {
    &&& on_rustfn(
        before,
        after,
        args,
        r,
        |f: RustFn| makes(before, after, r, ValueView::Text(f.name@)),
    )
}

/// The text of the receiver: the name of the native function it holds.
pub fn at_text(heap: &mut Heap, args: &Args) -> (r: Result<Step>)
    requires
        args_ready(old(heap), args),
    ensures
        call_kept(old(heap), final(heap), r),
        at_text_spec(old(heap), final(heap), args, r),
{
    match this_rustfn(heap, args) {
        Ok(f) => make_text(heap, f.name()),
        Err(e) => Err(e),
    }
}

} // verus!
