//! The native functions of numbers.
//!
//! Each takes arguments that carry the receiver. What depends on the bits
//! of a floating-point value is handed to the floating-point unit as a
//! task.

use vstd::prelude::*;
use core::cmp::Ordering;
use crate::args::Args;
use crate::boolean::{truth_of, Boolean};
use crate::error::{Error, Result, TypeError, ValueError};
use crate::heap::Heap;
use crate::impls::boolean::{number_of_ordering, ordering_number};
use crate::number::{
    bitwise, decimal, digits, math, math_undefined, radix_has_text, unsigned, wrap, Inner,
    NotAnInteger, Number,
};
use crate::object::{Kind, Object, Value, ValueView};
use crate::rustfn::{BitOp, MathOp};
use crate::step::{
    args_ready, asks_conversion, asks_float, call_kept, fails, make_boolean, make_number,
    make_text, makes, no_argument, no_receiver, FloatOp, FloatTask, Step, Target,
};
use crate::store::{payload, with_payload};

verus! {

/// The error of a receiver that holds `value`, which is no number.
pub open spec fn not_a_number(value: ValueView) -> Error {
    Error::TypeError(TypeError::WrongType { expected: Kind::Number, got: value.kind() })
}

/// The task of one operand that makes the result of the call.
pub open spec fn unary_task(op: FloatOp, n: Number) -> FloatTask {
    FloatTask { op, lhs: n, rhs: Number(Inner::Integer(0)), target: Target::Result }
}

/// The task of two operands that makes the result of the call.
pub open spec fn binary_task(op: FloatOp, l: Number, r: Number) -> FloatTask {
    FloatTask { op, lhs: l, rhs: r, target: Target::Result }
}

/// What a function of a number receiver does: it fails without a
/// receiver, and on one that holds no number; on a number it does what
/// `next` says.
pub open spec fn on_number(
    before: &Heap,
    after: &Heap,
    args: &Args,
    r: Result<Step>,
    next: spec_fn(Number) -> bool,
) -> bool {
    match args.this {
        None => fails(before, after, r, no_receiver()),
        Some(this) => match payload(before@, this) {
            ValueView::Number(n) => next(n),
            other => fails(before, after, r, not_a_number(other)),
        },
    }
}

/// What a function does with its first argument as a number: it fails
/// without the argument, asks for one that holds no number to be
/// converted through `@num`, and on a number does what `next` says.
pub open spec fn on_argument(
    before: &Heap,
    after: &Heap,
    args: &Args,
    r: Result<Step>,
    next: spec_fn(Number) -> bool,
) -> bool {
    if args.args@.len() == 0 {
        fails(before, after, r, no_argument())
    } else {
        match payload(before@, args.args@[0]) {
            ValueView::Number(n) => next(n),
            _ => asks_conversion(before, after, r, 0, "@num"@, Kind::Number, true),
        }
    }
}

/// The call makes a new object that holds `value`, where there is one,
/// and else asks the floating-point unit for `task`.
pub open spec fn gives(
    before: &Heap,
    after: &Heap,
    r: Result<Step>,
    value: Option<ValueView>,
    task: FloatTask,
) -> bool {
    match value {
        Some(v) => makes(before, after, r, v),
        None => asks_float(before, after, r, task),
    }
}

/// The call stores `value` in the receiver and hands the receiver back,
/// where there is a value, and else asks the floating-point unit for
/// `task`.
pub open spec fn stores(
    before: &Heap,
    after: &Heap,
    r: Result<Step>,
    this: Object,
    value: Option<Number>,
    task: FloatTask,
) -> bool {
    match value {
        Some(n) => r matches Ok(Step::Done(o)) && o == this && after@ == with_payload(
            before@,
            this,
            ValueView::Number(n),
        ),
        None => asks_float(before, after, r, task),
    }
}

/// What a unary function on an integer gives.
pub open spec fn on_integer(n: Number, f: spec_fn(i64) -> ValueView) -> Option<ValueView> {
    match n.0 {
        Inner::Integer(i) => Some(f(i)),
        Inner::Float(_) => None,
    }
}

/// The radix that an integer argument asks for: its low 32 bits.
pub open spec fn radix_of(i: i64) -> u32 {
    (i % 0x1_0000_0000) as u32
}

/// What `@text` does. Without an argument it makes the decimal text of
/// an integer, and asks the floating-point unit for the text of a
/// floating-point value. With one, the argument is the radix: it is
/// converted through `@num` where it holds no number, and rounded down by
/// the floating-point unit where it is a floating-point value. A receiver
/// that is a floating-point value has no text in a radix; an integer has
/// one in radix 2, 8, 10 and 16.
pub open spec fn at_text_spec(before: &Heap, after: &Heap, args: &Args, r: Result<Step>) -> bool {
    on_number(
        before,
        after,
        args,
        r,
        |n: Number|
            if args.args@.len() == 0 {
                gives(
                    before,
                    after,
                    r,
                    on_integer(n, |v: i64| ValueView::Text(decimal(v))),
                    unary_task(FloatOp::Text, n),
                )
            } else {
                match payload(before@, args.args@[0]) {
                    ValueView::Number(Number(Inner::Integer(by))) => match n.0 {
                        Inner::Float(f) => fails(
                            before,
                            after,
                            r,
                            Error::ValueError(ValueError::NotAnInteger(NotAnInteger(f))),
                        ),
                        Inner::Integer(v) => if radix_has_text(radix_of(by)) {
                            makes(
                                before,
                                after,
                                r,
                                ValueView::Text(
                                    if radix_of(by) == 10 {
                                        decimal(v)
                                    } else {
                                        digits(unsigned(v), radix_of(by) as nat)
                                    },
                                ),
                            )
                        } else {
                            fails(
                                before,
                                after,
                                r,
                                Error::ValueError(ValueError::BadRadix(radix_of(by))),
                            )
                        },
                    },
                    ValueView::Number(radix) => asks_float(
                        before,
                        after,
                        r,
                        FloatTask {
                            op: FloatOp::Floor,
                            lhs: radix,
                            rhs: Number(Inner::Integer(0)),
                            target: Target::Argument(0),
                        },
                    ),
                    _ => asks_conversion(before, after, r, 0, "@num"@, Kind::Number, true),
                }
            },
    )
}

/// What an arithmetic operator does: on a number receiver and a number
/// argument it makes the result, or asks the floating-point unit for it.
/// A remainder of two integers that has no value is an error.
pub open spec fn math_spec(
    before: &Heap,
    after: &Heap,
    args: &Args,
    r: Result<Step>,
    op: MathOp,
) -> bool {
    on_number(
        before,
        after,
        args,
        r,
        |l: Number|
            on_argument(
                before,
                after,
                args,
                r,
                |rhs: Number|
                    if math_undefined(op, l, rhs) {
                        fails(before, after, r, Error::ValueError(ValueError::BadModulus))
                    } else {
                        gives(
                            before,
                            after,
                            r,
                            match math(op, l, rhs) {
                                Some(n) => Some(ValueView::Number(n)),
                                None => None,
                            },
                            binary_task(FloatOp::Math(op), l, rhs),
                        )
                    },
            ),
    )
}

/// What an arithmetic operator in place does: it needs a receiver, then
/// the argument as a number, then a receiver that holds a number. The
/// result is stored in the receiver, by the floating-point unit where it
/// takes one, and the receiver is handed back.
pub open spec fn math_assign_spec(
    before: &Heap,
    after: &Heap,
    args: &Args,
    r: Result<Step>,
    op: MathOp,
) -> bool {
    match args.this {
        None => fails(before, after, r, no_receiver()),
        Some(this) => on_argument(
            before,
            after,
            args,
            r,
            |rhs: Number|
                match payload(before@, this) {
                    ValueView::Number(l) => if math_undefined(op, l, rhs) {
                        fails(before, after, r, Error::ValueError(ValueError::BadModulus))
                    } else {
                        stores(
                            before,
                            after,
                            r,
                            this,
                            math(op, l, rhs),
                            FloatTask {
                                op: FloatOp::Math(op),
                                lhs: l,
                                rhs,
                                target: Target::Receiver(this),
                            },
                        )
                    },
                    other => fails(before, after, r, not_a_number(other)),
                },
        ),
    }
}

/// What a bitwise operator does: on a number receiver and a number
/// argument that are both integers it makes the result; a floating-point
/// operand is an error.
pub open spec fn bitwise_spec(
    before: &Heap,
    after: &Heap,
    args: &Args,
    r: Result<Step>,
    op: BitOp,
) -> bool {
    on_number(
        before,
        after,
        args,
        r,
        |l: Number|
            on_argument(
                before,
                after,
                args,
                r,
                |rhs: Number|
                    match bitwise(op, l, rhs) {
                        Ok(n) => makes(before, after, r, ValueView::Number(n)),
                        Err(e) => fails(
                            before,
                            after,
                            r,
                            Error::ValueError(ValueError::NotAnInteger(e)),
                        ),
                    },
            ),
    )
}

/// What a bitwise operator in place does: it needs a receiver, then the
/// argument as a number, then a receiver that holds a number. On two
/// integers the result is stored in the receiver, which is handed back.
pub open spec fn bitwise_assign_spec(
    before: &Heap,
    after: &Heap,
    args: &Args,
    r: Result<Step>,
    op: BitOp,
) -> bool {
    match args.this {
        None => fails(before, after, r, no_receiver()),
        Some(this) => on_argument(
            before,
            after,
            args,
            r,
            |rhs: Number|
                match payload(before@, this) {
                    ValueView::Number(l) => match bitwise(op, l, rhs) {
                        Ok(n) => r matches Ok(Step::Done(o)) && o == this && after@
                            == with_payload(before@, this, ValueView::Number(n)),
                        Err(e) => fails(
                            before,
                            after,
                            r,
                            Error::ValueError(ValueError::NotAnInteger(e)),
                        ),
                    },
                    other => fails(before, after, r, not_a_number(other)),
                },
        ),
    }
}

/// The number that the receiver of `args` holds.
fn this_number(heap: &Heap, args: &Args) -> (r: Result<Number>)
    requires
        args_ready(heap, args),
    ensures
        match args.this {
            None => r matches Err(e) && e == no_receiver(),
            Some(this) => match payload(heap@, this) {
                ValueView::Number(n) => r == Ok::<Number, Error>(n),
                other => r matches Err(e) && e == not_a_number(other),
            },
        },
{
    match args.this() {
        Ok(this) => heap.try_downcast_number(this),
        Err(e) => Err(e),
    }
}

/// The number that the first argument holds; `None` where it holds
/// something else, which is to be converted.
fn number_argument(heap: &Heap, args: &Args) -> (r: Result<Option<Number>>)
    requires
        args_ready(heap, args),
    ensures
        if args.args@.len() == 0 {
            r matches Err(e) && e == no_argument()
        } else {
            r == Ok::<Option<Number>, Error>(
                match payload(heap@, args.args@[0]) {
                    ValueView::Number(n) => Some(n),
                    _ => None,
                },
            )
        },
{
    match args.arg(0) {
        Ok(o) => Ok(heap.downcast_number(o)),
        Err(e) => Err(e),
    }
}

/// The step that asks the floating-point unit for a task of one operand.
fn ask_unary(op: FloatOp, n: Number) -> (r: Result<Step>)
    ensures
        r matches Ok(Step::Float(t)) && t == unary_task(op, n),
{
    Ok(Step::Float(FloatTask { op, lhs: n, rhs: Number::zero(), target: Target::Result }))
}

/// The radix that an integer argument asks for.
fn radix_from(by: i64) -> (radix: u32)
    ensures
        radix == radix_of(by),
{
    match by.checked_rem_euclid(0x1_0000_0000) {
        Some(v) => {
            proof {
                vstd::arithmetic::div_mod::lemma_mod_bound(by as int, 0x1_0000_0000);
            }
            v as u32
        },
        None => 0,
    }
}

/// The text of the receiver, in the radix that the first argument gives
/// or else in decimal.
pub fn at_text(heap: &mut Heap, args: &Args) -> (r: Result<Step>)
    requires
        args_ready(old(heap), args),
    ensures
        call_kept(old(heap), final(heap), r),
        at_text_spec(old(heap), final(heap), args, r),
{
    let this = match this_number(heap, args) {
        Ok(n) => n,
        Err(e) => {
            return Err(e);
        },
    };
    if args.len() == 0 {
        return match this.to_text() {
            Some(s) => make_text(heap, s.as_str()),
            None => ask_unary(FloatOp::Text, this),
        };
    }
    let radix = match number_argument(heap, args) {
        Ok(Some(n)) => n,
        Ok(None) => {
            return Ok(Step::Convert { index: 0, key: "@num", to: Kind::Number, required: true });
        },
        Err(e) => {
            return Err(e);
        },
    };
    let by = match radix.floor() {
        Some(i) => i,
        None => {
            return Ok(
                Step::Float(
                    FloatTask {
                        op: FloatOp::Floor,
                        lhs: radix,
                        rhs: Number::zero(),
                        target: Target::Argument(0),
                    },
                ),
            );
        },
    };
    let radix = radix_from(by);
    match this.0 {
        Inner::Float(f) => Err(Error::ValueError(ValueError::NotAnInteger(NotAnInteger(f)))),
        Inner::Integer(_) => {
            if radix == 2 || radix == 8 || radix == 10 || radix == 16 {
                match this.to_string_radix(radix) {
                    Ok(s) => make_text(heap, s.as_str()),
                    Err(e) => Err(Error::from(e)),
                }
            } else {
                Err(Error::ValueError(ValueError::BadRadix(radix)))
            }
        },
    }
}

/// What [`inspect`] does.
pub open spec fn inspect_spec(before: &Heap, after: &Heap, args: &Args, r: Result<Step>) -> bool {
    &&& on_number(
        before,
        after,
        args,
        r,
        |n: Number|
            gives(
                before,
                after,
                r,
                on_integer(n, |v: i64| ValueView::Text(decimal(v))),
                unary_task(FloatOp::Text, n),
            ),
    )
}

/// The text that shows the receiver to a developer: its text.
pub fn inspect(heap: &mut Heap, args: &Args) -> (r: Result<Step>)
    requires
        args_ready(old(heap), args),
    ensures
        call_kept(old(heap), final(heap), r),
        inspect_spec(old(heap), final(heap), args, r),
{
    match this_number(heap, args) {
        Ok(n) => match n.to_text() {
            Some(s) => make_text(heap, s.as_str()),
            None => ask_unary(FloatOp::Text, n),
        },
        Err(e) => Err(e),
    }
}

/// What [`at_num`] does.
pub open spec fn at_num_spec(before: &Heap, after: &Heap, args: &Args, r: Result<Step>) -> bool {
    &&& after@ == before@
    &&& match args.this {
        None => r matches Err(e) && e == no_receiver(),
        Some(this) => r matches Ok(Step::Done(o)) && o == this,
    }
}

/// The number of the receiver: the receiver itself, whatever it holds.
pub fn at_num(heap: &mut Heap, args: &Args) -> (r: Result<Step>)
    requires
        args_ready(old(heap), args),
    ensures
        call_kept(old(heap), final(heap), r),
        at_num_spec(old(heap), final(heap), args, r),
{
    match args.this() {
        Ok(this) => Ok(Step::Done(this)),
        Err(e) => Err(e),
    }
}

/// What [`at_bool`] does.
pub open spec fn at_bool_spec(before: &Heap, after: &Heap, args: &Args, r: Result<Step>) -> bool {
    &&& on_number(
        before,
        after,
        args,
        r,
        |n: Number| makes(before, after, r, ValueView::Boolean(truth_of(n))),
    )
}

/// The boolean of the receiver: whether it is not zero.
pub fn at_bool(heap: &mut Heap, args: &Args) -> (r: Result<Step>)
    requires
        args_ready(old(heap), args),
    ensures
        call_kept(old(heap), final(heap), r),
        at_bool_spec(old(heap), final(heap), args, r),
{
    match this_number(heap, args) {
        Ok(n) => make_boolean(heap, Boolean::from_number(n)),
        Err(e) => Err(e),
    }
}

/// What [`clone`] does.
pub open spec fn clone_spec(before: &Heap, after: &Heap, args: &Args, r: Result<Step>) -> bool {
    &&& on_number(
        before,
        after,
        args,
        r,
        |n: Number| makes(before, after, r, ValueView::Number(n)),
    )
}

/// A new number object that holds what the receiver holds.
pub fn clone(heap: &mut Heap, args: &Args) -> (r: Result<Step>)
    requires
        args_ready(old(heap), args),
    ensures
        call_kept(old(heap), final(heap), r),
        clone_spec(old(heap), final(heap), args, r),
{
    match this_number(heap, args) {
        Ok(n) => make_number(heap, n),
        Err(e) => Err(e),
    }
}

/// The receiver under the arithmetic operator `op` with the first
/// argument.
pub fn arithmetic(heap: &mut Heap, args: &Args, op: MathOp) -> (r: Result<Step>)
    requires
        args_ready(old(heap), args),
    ensures
        call_kept(old(heap), final(heap), r),
        math_spec(old(heap), final(heap), args, r, op),
{
    let lhs = match this_number(heap, args) {
        Ok(n) => n,
        Err(e) => {
            return Err(e);
        },
    };
    let rhs = match number_argument(heap, args) {
        Ok(Some(n)) => n,
        Ok(None) => {
            return Ok(Step::Convert { index: 0, key: "@num", to: Kind::Number, required: true });
        },
        Err(e) => {
            return Err(e);
        },
    };
    if lhs.math_undefined(op, rhs) {
        return Err(Error::ValueError(ValueError::BadModulus));
    }
    match lhs.math(op, rhs) {
        Some(n) => make_number(heap, n),
        None => Ok(
            Step::Float(FloatTask { op: FloatOp::Math(op), lhs, rhs, target: Target::Result }),
        ),
    }
}

/// The receiver under the arithmetic operator `op` with the first
/// argument, stored in the receiver.
pub fn arithmetic_assign(heap: &mut Heap, args: &Args, op: MathOp) -> (r: Result<Step>)
    requires
        args_ready(old(heap), args),
    ensures
        call_kept(old(heap), final(heap), r),
        math_assign_spec(old(heap), final(heap), args, r, op),
{
    let this = match args.this() {
        Ok(o) => o,
        Err(e) => {
            return Err(e);
        },
    };
    let rhs = match number_argument(heap, args) {
        Ok(Some(n)) => n,
        Ok(None) => {
            return Ok(Step::Convert { index: 0, key: "@num", to: Kind::Number, required: true });
        },
        Err(e) => {
            return Err(e);
        },
    };
    let lhs = match heap.try_downcast_number(this) {
        Ok(n) => n,
        Err(e) => {
            return Err(e);
        },
    };
    if lhs.math_undefined(op, rhs) {
        return Err(Error::ValueError(ValueError::BadModulus));
    }
    match lhs.math(op, rhs) {
        Some(n) => {
            heap.replace_value(this, Value::Number(n));
            Ok(Step::Done(this))
        },
        None => Ok(
            Step::Float(
                FloatTask { op: FloatOp::Math(op), lhs, rhs, target: Target::Receiver(this) },
            ),
        ),
    }
}

/// The receiver under the bitwise operator `op` with the first argument.
pub fn bitwise_op(heap: &mut Heap, args: &Args, op: BitOp) -> (r: Result<Step>)
    requires
        args_ready(old(heap), args),
    ensures
        call_kept(old(heap), final(heap), r),
        bitwise_spec(old(heap), final(heap), args, r, op),
{
    let lhs = match this_number(heap, args) {
        Ok(n) => n,
        Err(e) => {
            return Err(e);
        },
    };
    let rhs = match number_argument(heap, args) {
        Ok(Some(n)) => n,
        Ok(None) => {
            return Ok(Step::Convert { index: 0, key: "@num", to: Kind::Number, required: true });
        },
        Err(e) => {
            return Err(e);
        },
    };
    match lhs.bitwise(op, rhs) {
        Ok(n) => make_number(heap, n),
        Err(e) => Err(Error::from(e)),
    }
}

/// The receiver under the bitwise operator `op` with the first argument,
/// stored in the receiver.
pub fn bitwise_assign(heap: &mut Heap, args: &Args, op: BitOp) -> (r: Result<Step>)
    requires
        args_ready(old(heap), args),
    ensures
        call_kept(old(heap), final(heap), r),
        bitwise_assign_spec(old(heap), final(heap), args, r, op),
{
    let this = match args.this() {
        Ok(o) => o,
        Err(e) => {
            return Err(e);
        },
    };
    let rhs = match number_argument(heap, args) {
        Ok(Some(n)) => n,
        Ok(None) => {
            return Ok(Step::Convert { index: 0, key: "@num", to: Kind::Number, required: true });
        },
        Err(e) => {
            return Err(e);
        },
    };
    let lhs = match heap.try_downcast_number(this) {
        Ok(n) => n,
        Err(e) => {
            return Err(e);
        },
    };
    match lhs.bitwise(op, rhs) {
        Ok(n) => {
            heap.replace_value(this, Value::Number(n));
            Ok(Step::Done(this))
        },
        Err(e) => Err(Error::from(e)),
    }
}

/// What [`neg`] does.
pub open spec fn neg_spec(before: &Heap, after: &Heap, args: &Args, r: Result<Step>) -> bool {
    &&& on_number(
        before,
        after,
        args,
        r,
        |n: Number|
            gives(
                before,
                after,
                r,
                on_integer(n, |v: i64| ValueView::Number(Number(Inner::Integer(wrap(-v))))),
                unary_task(FloatOp::Neg, n),
            ),
    )
}

/// The receiver negated.
pub fn neg(heap: &mut Heap, args: &Args) -> (r: Result<Step>)
    requires
        args_ready(old(heap), args),
    ensures
        call_kept(old(heap), final(heap), r),
        neg_spec(old(heap), final(heap), args, r),
{
    match this_number(heap, args) {
        Ok(n) => match n.neg() {
            Some(v) => make_number(heap, v),
            None => ask_unary(FloatOp::Neg, n),
        },
        Err(e) => Err(e),
    }
}

/// What [`bitnot`] does.
pub open spec fn bitnot_spec(before: &Heap, after: &Heap, args: &Args, r: Result<Step>) -> bool {
    &&& on_number(
        before,
        after,
        args,
        r,
        |n: Number|
            match n.0 {
                Inner::Integer(v) => makes(
                    before,
                    after,
                    r,
                    ValueView::Number(Number(Inner::Integer(!v))),
                ),
                Inner::Float(f) => fails(
                    before,
                    after,
                    r,
                    Error::ValueError(ValueError::NotAnInteger(NotAnInteger(f))),
                ),
            },
    )
}

/// The bitwise complement of the receiver, which has to be an integer.
pub fn bitnot(heap: &mut Heap, args: &Args) -> (r: Result<Step>)
    requires
        args_ready(old(heap), args),
    ensures
        call_kept(old(heap), final(heap), r),
        bitnot_spec(old(heap), final(heap), args, r),
{
    match this_number(heap, args) {
        Ok(n) => match n.not() {
            Ok(v) => make_number(heap, v),
            Err(e) => Err(Error::from(e)),
        },
        Err(e) => Err(e),
    }
}

/// What [`abs`] does.
pub open spec fn abs_spec(before: &Heap, after: &Heap, args: &Args, r: Result<Step>) -> bool {
    &&& on_number(
        before,
        after,
        args,
        r,
        |n: Number|
            gives(
                before,
                after,
                r,
                on_integer(
                    n,
                    |v: i64|
                        ValueView::Number(
                            Number(
                                Inner::Integer(
                                    wrap(
                                        if v < 0 {
                                            -v
                                        } else {
                                            v as int
                                        },
                                    ),
                                ),
                            ),
                        ),
                ),
                unary_task(FloatOp::Abs, n),
            ),
    )
}

/// The absolute value of the receiver.
pub fn abs(heap: &mut Heap, args: &Args) -> (r: Result<Step>)
    requires
        args_ready(old(heap), args),
    ensures
        call_kept(old(heap), final(heap), r),
        abs_spec(old(heap), final(heap), args, r),
{
    match this_number(heap, args) {
        Ok(n) => match n.abs() {
            Some(v) => make_number(heap, v),
            None => ask_unary(FloatOp::Abs, n),
        },
        Err(e) => Err(e),
    }
}

/// What [`eql`] does.
pub open spec fn eql_spec(before: &Heap, after: &Heap, args: &Args, r: Result<Step>) -> bool {
    &&& on_number(
        before,
        after,
        args,
        r,
        |l: Number|
            if args.args@.len() == 0 {
                fails(before, after, r, no_argument())
            } else {
                match payload(before@, args.args@[0]) {
                    ValueView::Number(rhs) => gives(
                        before,
                        after,
                        r,
                        match (l.0, rhs.0) {
                            (Inner::Integer(a), Inner::Integer(b)) => Some(
                                ValueView::Boolean(Boolean(a == b)),
                            ),
                            _ => None,
                        },
                        binary_task(FloatOp::Eql, l, rhs),
                    ),
                    _ => makes(
                        before,
                        after,
                        r,
                        ValueView::Boolean(Boolean(false)),
                    ),
                }
            },
    )
}

/// Whether the receiver is numerically equal to the first argument,
/// which is not converted: an argument that holds no number is not
/// equal.
pub fn eql(heap: &mut Heap, args: &Args) -> (r: Result<Step>)
    requires
        args_ready(old(heap), args),
    ensures
        call_kept(old(heap), final(heap), r),
        eql_spec(old(heap), final(heap), args, r),
{
    let lhs = match this_number(heap, args) {
        Ok(n) => n,
        Err(e) => {
            return Err(e);
        },
    };
    match number_argument(heap, args) {
        Ok(Some(rhs)) => match lhs.eql(&rhs) {
            Some(b) => make_boolean(heap, Boolean::new(b)),
            None => Ok(
                Step::Float(FloatTask { op: FloatOp::Eql, lhs, rhs, target: Target::Result }),
            ),
        },
        Ok(None) => make_boolean(heap, Boolean::new(false)),
        Err(e) => Err(e),
    }
}

/// What [`floor`] does.
pub open spec fn floor_spec(before: &Heap, after: &Heap, args: &Args, r: Result<Step>) -> bool {
    &&& on_number(
        before,
        after,
        args,
        r,
        |n: Number|
            gives(
                before,
                after,
                r,
                on_integer(n, |v: i64| ValueView::Number(Number(Inner::Integer(v)))),
                unary_task(FloatOp::Floor, n),
            ),
    )
}

/// The largest integer that is not above the receiver.
pub fn floor(heap: &mut Heap, args: &Args) -> (r: Result<Step>)
    requires
        args_ready(old(heap), args),
    ensures
        call_kept(old(heap), final(heap), r),
        floor_spec(old(heap), final(heap), args, r),
{
    match this_number(heap, args) {
        Ok(n) => match n.floor() {
            Some(v) => make_number(heap, Number::from_integer(v)),
            None => ask_unary(FloatOp::Floor, n),
        },
        Err(e) => Err(e),
    }
}

/// What [`ceil`] does.
pub open spec fn ceil_spec(before: &Heap, after: &Heap, args: &Args, r: Result<Step>) -> bool {
    &&& on_number(
        before,
        after,
        args,
        r,
        |n: Number|
            gives(
                before,
                after,
                r,
                on_integer(n, |v: i64| ValueView::Number(Number(Inner::Integer(v)))),
                unary_task(FloatOp::Ceil, n),
            ),
    )
}

/// The smallest integer that is not below the receiver.
pub fn ceil(heap: &mut Heap, args: &Args) -> (r: Result<Step>)
    requires
        args_ready(old(heap), args),
    ensures
        call_kept(old(heap), final(heap), r),
        ceil_spec(old(heap), final(heap), args, r),
{
    match this_number(heap, args) {
        Ok(n) => match n.ceil() {
            Some(v) => make_number(heap, Number::from_integer(v)),
            None => ask_unary(FloatOp::Ceil, n),
        },
        Err(e) => Err(e),
    }
}

/// How `l` stands to `r`, where both are integers.
pub open spec fn integer_order(l: Number, r: Number) -> Option<Ordering> {
    match (l.0, r.0) {
        (Inner::Integer(a), Inner::Integer(b)) => Some(
            if a < b {
                Ordering::Less
            } else if a == b {
                Ordering::Equal
            } else {
                Ordering::Greater
            },
        ),
        _ => None,
    }
}

/// What `<=>` does: on a number receiver and a number argument it makes
/// the number that says how they stand, -1, 0 or 1, or asks the
/// floating-point unit for it.
pub open spec fn order_spec(before: &Heap, after: &Heap, args: &Args, r: Result<Step>) -> bool {
    on_number(
        before,
        after,
        args,
        r,
        |l: Number|
            on_argument(
                before,
                after,
                args,
                r,
                |rhs: Number|
                    gives(
                        before,
                        after,
                        r,
                        match integer_order(l, rhs) {
                            Some(o) => Some(ValueView::Number(ordering_number(o))),
                            None => None,
                        },
                        binary_task(FloatOp::Cmp, l, rhs),
                    ),
            ),
    )
}

/// How the receiver stands to the first argument, as a number.
pub fn cmp(heap: &mut Heap, args: &Args) -> (r: Result<Step>)
    requires
        args_ready(old(heap), args),
    ensures
        call_kept(old(heap), final(heap), r),
        order_spec(old(heap), final(heap), args, r),
{
    let lhs = match this_number(heap, args) {
        Ok(n) => n,
        Err(e) => {
            return Err(e);
        },
    };
    let rhs = match number_argument(heap, args) {
        Ok(Some(n)) => n,
        Ok(None) => {
            return Ok(Step::Convert { index: 0, key: "@num", to: Kind::Number, required: true });
        },
        Err(e) => {
            return Err(e);
        },
    };
    match lhs.cmp(&rhs) {
        Some(o) => make_number(heap, number_of_ordering(o)),
        None => Ok(Step::Float(FloatTask { op: FloatOp::Cmp, lhs, rhs, target: Target::Result })),
    }
}

} // verus!
