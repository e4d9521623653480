//! The dispatch table: which code each native function runs.

use vstd::prelude::*;
use crate::args::{Args, Invocation};
use crate::attrs::convert::{AtBoolean, AtNumber, AtText, Inspect};
use crate::attrs::operators::{
    BitAnd, BitAndAssign, BitOr, BitOrAssign, BitXor, BitXorAssign, Cmp, Eql, Not,
};
use crate::boolean::{number_of, Boolean};
use crate::error::{Error, KeyError, Result, TypeError};
use crate::heap::Heap;
use crate::impls::boolean::{
    assign_spec, binary_spec, boolean_order, boolean_text, converts, eql_spec, ordering_number,
    Logic,
};
use crate::impls::pristine::{inspect_text, Pristine};
use crate::impls::{boolean, number, pristine, rustfn};
use crate::object::{Object, ValueView};
use crate::rustfn::{NativeFn, RustFn};
use crate::step::{args_ready, call_kept, fails, makes, no_receiver, Step};
use crate::key::Key;
use crate::store::{fails_with, key_closed, key_id, payload, resolve, Resolution};

verus! {

/// What a function that takes its receiver apart from the arguments does
/// with arguments that carry it: it fails without a receiver, and else
/// does what `next` says for it.
pub open spec fn with_receiver(
    before: &Heap,
    after: &Heap,
    args: &Args,
    r: Result<Step>,
    next: spec_fn(Object) -> bool,
) -> bool {
    match args.this {
        None => fails(before, after, r, no_receiver()),
        Some(this) => next(this),
    }
}

/// What calling the native function `f` with `args` does: what the code
/// does that `f` stands for. A function of the embedding program is not
/// called: the call comes back as the call to make.
pub open spec fn dispatches(
    f: RustFn,
    before: &Heap,
    after: &Heap,
    args: &Args,
    r: Result<Step>,
) -> bool {
    match f.func {
        NativeFn::PristineId => pristine::id_spec(before, after, args, r),
        NativeFn::PristineKeys => pristine::keys_spec(before, after, args, r),
        NativeFn::PristineCallAttr => pristine::call_attr_spec(before, after, args, r),
        NativeFn::PristineGetAttr => pristine::get_attr_spec(before, after, args, r),
        NativeFn::PristineSetAttr => pristine::set_attr_spec(before, after, args, r),
        NativeFn::PristineHasAttr => pristine::has_attr_spec(before, after, args, r),
        NativeFn::PristineDelAttr => pristine::del_attr_spec(before, after, args, r),
        NativeFn::PristineDotGetAttr => pristine::get_attr_spec(before, after, args, r),
        NativeFn::PristineInspect => with_receiver(
            before,
            after,
            args,
            r,
            |this: Object|
                makes(
                    before,
                    after,
                    r,
                    ValueView::Text(inspect_text(payload(before@, this).kind(), this.id)),
                ),
        ),
        NativeFn::BooleanInspect => with_receiver(
            before,
            after,
            args,
            r,
            |this: Object|
                converts(before, after, this, r, |b: Boolean| ValueView::Text(boolean_text(b))),
        ),
        NativeFn::BooleanAtText => with_receiver(
            before,
            after,
            args,
            r,
            |this: Object|
                converts(before, after, this, r, |b: Boolean| ValueView::Text(boolean_text(b))),
        ),
        NativeFn::BooleanAtNum => with_receiver(
            before,
            after,
            args,
            r,
            |this: Object|
                converts(before, after, this, r, |b: Boolean| ValueView::Number(number_of(b))),
        ),
        NativeFn::BooleanAtBool => with_receiver(
            before,
            after,
            args,
            r,
            |this: Object| converts(before, after, this, r, |b: Boolean| ValueView::Boolean(b)),
        ),
        NativeFn::BooleanNot => with_receiver(
            before,
            after,
            args,
            r,
            |this: Object|
                converts(
                    before,
                    after,
                    this,
                    r,
                    |b: Boolean| ValueView::Boolean(Boolean(!b.0)),
                ),
        ),
        NativeFn::BooleanEql => with_receiver(
            before,
            after,
            args,
            r,
            |this: Object| eql_spec(before, after, this, args, r),
        ),
        NativeFn::BooleanBitAnd => with_receiver(
            before,
            after,
            args,
            r,
            |this: Object|
                binary_spec(
                    before,
                    after,
                    this,
                    args,
                    r,
                    |l: bool, r: bool| ValueView::Boolean(Boolean(l && r)),
                ),
        ),
        NativeFn::BooleanBitOr => with_receiver(
            before,
            after,
            args,
            r,
            |this: Object|
                binary_spec(
                    before,
                    after,
                    this,
                    args,
                    r,
                    |l: bool, r: bool| ValueView::Boolean(Boolean(l || r)),
                ),
        ),
        NativeFn::BooleanBitXor => with_receiver(
            before,
            after,
            args,
            r,
            |this: Object|
                binary_spec(
                    before,
                    after,
                    this,
                    args,
                    r,
                    |l: bool, r: bool| ValueView::Boolean(Boolean(l != r)),
                ),
        ),
        NativeFn::BooleanCmp => with_receiver(
            before,
            after,
            args,
            r,
            |this: Object|
                binary_spec(
                    before,
                    after,
                    this,
                    args,
                    r,
                    |l: bool, r: bool| ValueView::Number(ordering_number(boolean_order(l, r))),
                ),
        ),
        NativeFn::BooleanBitAndAssign => with_receiver(
            before,
            after,
            args,
            r,
            |this: Object| assign_spec(before, after, this, args, r, Logic::And),
        ),
        NativeFn::BooleanBitOrAssign => with_receiver(
            before,
            after,
            args,
            r,
            |this: Object| assign_spec(before, after, this, args, r, Logic::Or),
        ),
        NativeFn::BooleanBitXorAssign => with_receiver(
            before,
            after,
            args,
            r,
            |this: Object| assign_spec(before, after, this, args, r, Logic::Xor),
        ),
        NativeFn::BooleanClone => boolean::clone_spec(before, after, args, r),
        NativeFn::NumberAtText => number::at_text_spec(before, after, args, r),
        NativeFn::NumberInspect => number::inspect_spec(before, after, args, r),
        NativeFn::NumberAtNum => number::at_num_spec(before, after, args, r),
        NativeFn::NumberAtBool => number::at_bool_spec(before, after, args, r),
        NativeFn::NumberClone => number::clone_spec(before, after, args, r),
        NativeFn::NumberMath(op) => number::math_spec(before, after, args, r, op),
        NativeFn::NumberMathAssign(op) => number::math_assign_spec(before, after, args, r, op),
        NativeFn::NumberBitwise(op) => number::bitwise_spec(before, after, args, r, op),
        NativeFn::NumberBitwiseAssign(op) => number::bitwise_assign_spec(
            before,
            after,
            args,
            r,
            op,
        ),
        NativeFn::NumberNeg => number::neg_spec(before, after, args, r),
        NativeFn::NumberAbs => number::abs_spec(before, after, args, r),
        NativeFn::NumberBitNot => number::bitnot_spec(before, after, args, r),
        NativeFn::NumberCmp => number::order_spec(before, after, args, r),
        NativeFn::NumberEql => number::eql_spec(before, after, args, r),
        NativeFn::NumberFloor => number::floor_spec(before, after, args, r),
        NativeFn::NumberCeil => number::ceil_spec(before, after, args, r),
        NativeFn::RustFnAtText => rustfn::at_text_spec(before, after, args, r),
        NativeFn::RustFnCall => rustfn::call_spec(before, after, args, r),
        NativeFn::Foreign(_) => r matches Ok(Step::Call(inner)) && inner.func.func == f.func
            && inner.func.name == f.name && inner.args.this == args.this && inner.args.args@
            == args.args@ && after@ == before@,
    }
}

/// Calls a native function that takes its receiver apart from the
/// arguments.
fn capability(f: RustFn, heap: &mut Heap, args: &Args) -> (r: Result<Step>)
    requires
        args_ready(old(heap), args),
        takes_receiver(f.func),
    ensures
        call_kept(old(heap), final(heap), r),
        dispatches(f, old(heap), final(heap), args, r),
{
    let this = match args.this() {
        Ok(o) => o,
        Err(e) => {
            return Err(e);
        },
    };
    match f.func {
        NativeFn::PristineInspect => Pristine::qs___inspect__(heap, this, args),
        NativeFn::BooleanInspect => <Boolean as Inspect>::call(heap, this, args),
        NativeFn::BooleanAtText => <Boolean as AtText>::call(heap, this, args),
        NativeFn::BooleanAtNum => <Boolean as AtNumber>::call(heap, this, args),
        NativeFn::BooleanAtBool => <Boolean as AtBoolean>::call(heap, this, args),
        NativeFn::BooleanNot => <Boolean as Not>::call(heap, this, args),
        NativeFn::BooleanEql => <Boolean as Eql>::call(heap, this, args),
        NativeFn::BooleanBitAnd => <Boolean as BitAnd>::call(heap, this, args),
        NativeFn::BooleanBitOr => <Boolean as BitOr>::call(heap, this, args),
        NativeFn::BooleanBitXor => <Boolean as BitXor>::call(heap, this, args),
        NativeFn::BooleanBitAndAssign => <Boolean as BitAndAssign>::call(heap, this, args),
        NativeFn::BooleanBitOrAssign => <Boolean as BitOrAssign>::call(heap, this, args),
        NativeFn::BooleanBitXorAssign => <Boolean as BitXorAssign>::call(heap, this, args),
        _ => <Boolean as Cmp>::call(heap, this, args),
    }
}

/// Whether the code of a native function takes its receiver apart from
/// the arguments.
pub open spec fn takes_receiver(func: NativeFn) -> bool {
    match func {
        NativeFn::PristineInspect
        | NativeFn::BooleanInspect
        | NativeFn::BooleanAtText
        | NativeFn::BooleanAtNum
        | NativeFn::BooleanAtBool
        | NativeFn::BooleanNot
        | NativeFn::BooleanEql
        | NativeFn::BooleanBitAnd
        | NativeFn::BooleanBitOr
        | NativeFn::BooleanBitXor
        | NativeFn::BooleanBitAndAssign
        | NativeFn::BooleanBitOrAssign
        | NativeFn::BooleanBitXorAssign
        | NativeFn::BooleanCmp => true,
        _ => false,
    }
}

impl RustFn {
    /// Calls the native function with `args`.
    pub fn call(&self, heap: &mut Heap, args: &Args) -> (r: Result<Step>)
        requires
            args_ready(old(heap), args),
        ensures
            call_kept(old(heap), final(heap), r),
            dispatches(*self, old(heap), final(heap), args, r),
    {
        match self.func {
            NativeFn::PristineId => pristine::__id__(heap, args),
            NativeFn::PristineKeys => pristine::__keys__(heap, args),
            NativeFn::PristineCallAttr => pristine::__call_attr__(heap, args),
            NativeFn::PristineGetAttr => pristine::__get_attr__(heap, args),
            NativeFn::PristineSetAttr => pristine::__set_attr__(heap, args),
            NativeFn::PristineHasAttr => pristine::__has_attr__(heap, args),
            NativeFn::PristineDelAttr => pristine::__del_attr__(heap, args),
            NativeFn::PristineDotGetAttr => pristine::dot_get_attr(heap, args),
            NativeFn::BooleanClone => boolean::clone(heap, args),
            NativeFn::NumberAtText => number::at_text(heap, args),
            NativeFn::NumberInspect => number::inspect(heap, args),
            NativeFn::NumberAtNum => number::at_num(heap, args),
            NativeFn::NumberAtBool => number::at_bool(heap, args),
            NativeFn::NumberClone => number::clone(heap, args),
            NativeFn::NumberMath(op) => number::arithmetic(heap, args, op),
            NativeFn::NumberMathAssign(op) => number::arithmetic_assign(heap, args, op),
            NativeFn::NumberBitwise(op) => number::bitwise_op(heap, args, op),
            NativeFn::NumberBitwiseAssign(op) => number::bitwise_assign(heap, args, op),
            NativeFn::NumberNeg => number::neg(heap, args),
            NativeFn::NumberAbs => number::abs(heap, args),
            NativeFn::NumberBitNot => number::bitnot(heap, args),
            NativeFn::NumberCmp => number::cmp(heap, args),
            NativeFn::NumberEql => number::eql(heap, args),
            NativeFn::NumberFloor => number::floor(heap, args),
            NativeFn::NumberCeil => number::ceil(heap, args),
            NativeFn::RustFnAtText => rustfn::at_text(heap, args),
            NativeFn::RustFnCall => rustfn::call(heap, args),
            NativeFn::Foreign(_) => Ok(
                Step::Call(Invocation { func: *self, args: args.duplicate() }),
            ),
            other => capability(*self, heap, args),
        }
    }
}

/// What invoking an attribute does: the key is resolved on the receiver
/// of the arguments, its own table first and then its parents in order,
/// and the native function that it resolves to is called with the
/// arguments. It is a key error that nothing resolves the key, and a type
/// error that it resolves to something that is no native function; both
/// leave the store as it is.
pub open spec fn sends(before: &Heap, after: &Heap, key: Key, args: &Args, r: Result<Step>) -> bool {
    with_receiver(
        before,
        after,
        args,
        r,
        |this: Object|
            match resolve(before@, this, key_id(before@, key), before@.len()) {
                Resolution::Found(held) => match payload(before@, held) {
                    ValueView::RustFn(f) => dispatches(f, before, after, args, r),
                    other => fails(
                        before,
                        after,
                        r,
                        Error::TypeError(TypeError::NotCallable { got: other.kind() }),
                    ),
                },
                Resolution::Missing => fails(
                    before,
                    after,
                    r,
                    Error::KeyError(KeyError::DoesntExist { attr: key, obj: this }),
                ),
                res => r matches Err(e) && fails_with(e, res) && after@ == before@,
            },
    )
}

/// Invokes attribute `key` on the receiver of `args`, with `args`.
pub fn send(heap: &mut Heap, key: &Key, args: &Args) -> (r: Result<Step>)
    requires
        args_ready(old(heap), args),
        key_closed(*key, old(heap)@.len()),
    ensures
        call_kept(old(heap), final(heap), r),
        sends(old(heap), final(heap), *key, args, r),
{
    let this = match args.this() {
        Ok(o) => o,
        Err(e) => {
            return Err(e);
        },
    };
    match heap.get_attr(this, key) {
        Ok(Some(held)) => match heap.downcast_rustfn(held) {
            Some(f) => f.call(heap, args),
            None => Err(Error::TypeError(TypeError::NotCallable { got: heap.kind(held) })),
        },
        Ok(None) => Err(Error::KeyError(KeyError::DoesntExist { attr: *key, obj: this })),
        Err(e) => Err(e),
    }
}

} // verus!
