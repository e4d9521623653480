//! The native functions of booleans.
//!
//! Each capability is implemented for [`Boolean`] and takes the receiver
//! apart from the arguments. The free functions take arguments that
//! carry the receiver.

use vstd::prelude::*;
use core::cmp::Ordering;
use crate::args::Args;
use crate::attrs::{convert, operators};
use crate::boolean::{number_of, Boolean};
use crate::error::{Error, KeyError, Result, TypeError};
use crate::heap::Heap;
use crate::key::{Key, KeyId};
use crate::number::{Inner, Number};
use crate::object::{Kind, Object, Value, ValueView};
use crate::step::{
    args_ready, asks_conversion, call_kept, call_ready, fails, make_boolean, make_number, make_text,
    makes, no_argument, no_receiver, Step,
};
use crate::store::{fails_with, payload, resolve, with_payload, Resolution};

verus! {

/// The logical operators of two operands.
#[derive(Debug, Clone, Copy, PartialEq, Eq, Structural)]
pub enum Logic {
    And,
    Or,
    Xor,
}

impl Logic {
    /// What the operator gives on `l` and `r`.
    pub open spec fn spec_apply(self, l: bool, r: bool) -> bool {
        match self {
            Logic::And => l && r,
            Logic::Or => l || r,
            Logic::Xor => l != r,
        }
    }

    /// What the operator gives on `l` and `r`.
    pub fn apply(self, l: Boolean, r: Boolean) -> (b: Boolean)
        ensures
            b.0 == self.spec_apply(l.0, r.0),
    {
        match self {
            Logic::And => l.bitand(r),
            Logic::Or => l.bitor(r),
            Logic::Xor => l.bitxor(r),
        }
    }
}

/// The number that says how two values stand to each other: -1 for less,
/// 0 for equal, 1 for greater.
pub open spec fn ordering_number(o: Ordering) -> Number {
    match o {
        Ordering::Less => Number(Inner::Integer(-1i64)),
        Ordering::Equal => Number(Inner::Integer(0)),
        Ordering::Greater => Number(Inner::Integer(1)),
    }
}

/// How `l` stands to `r`, with false below true.
pub open spec fn boolean_order(l: bool, r: bool) -> Ordering {
    if l == r {
        Ordering::Equal
    } else if r {
        Ordering::Less
    } else {
        Ordering::Greater
    }
}

/// The number that says how two values stand to each other.
pub fn number_of_ordering(o: Ordering) -> (n: Number)
    ensures
        n == ordering_number(o),
{
    match o {
        Ordering::Less => Number::from_integer(-1),
        Ordering::Equal => Number::from_integer(0),
        Ordering::Greater => Number::from_integer(1),
    }
}

/// The error of a receiver that holds `value`, which is no boolean.
pub open spec fn not_a_boolean(value: ValueView) -> Error {
    Error::TypeError(TypeError::WrongType { expected: Kind::Boolean, got: value.kind() })
}

/// The text of a boolean.
pub open spec fn boolean_text(b: Boolean) -> Seq<char> {
    if b.0 {
        "true"@
    } else {
        "false"@
    }
}

/// What a conversion of a boolean receiver does: it fails on a receiver
/// that holds no boolean, and else makes a new object that holds what
/// `convert` gives for the boolean.
pub open spec fn converts(
    before: &Heap,
    after: &Heap,
    this: Object,
    r: Result<Step>,
    convert: spec_fn(Boolean) -> ValueView,
) -> bool {
    match payload(before@, this) {
        ValueView::Boolean(b) => makes(before, after, r, convert(b)),
        other => fails(before, after, r, not_a_boolean(other)),
    }
}

/// What `==` does: it reads the first argument; a receiver compared with
/// itself is equal whatever it holds; else the receiver has to hold a
/// boolean, and is equal to an argument that holds the same boolean and
/// to nothing else.
pub open spec fn eql_spec(before: &Heap, after: &Heap, this: Object, args: &Args, r: Result<Step>) -> bool {
    if args.args@.len() == 0 {
        fails(before, after, r, no_argument())
    } else if args.args@[0] == this {
        makes(before, after, r, ValueView::Boolean(Boolean(true)))
    } else {
        match payload(before@, this) {
            ValueView::Boolean(l) => makes(
                before,
                after,
                r,
                ValueView::Boolean(
                    Boolean(payload(before@, args.args@[0]) == ValueView::Boolean(l)),
                ),
            ),
            other => fails(before, after, r, not_a_boolean(other)),
        }
    }
}

/// What an operator of two booleans does: it reads the first argument,
/// needs a receiver that holds a boolean, and asks for an argument that
/// holds none to be converted through `@bool`. On two booleans it makes a
/// new object that holds what `result` gives for them.
pub open spec fn binary_spec(
    before: &Heap,
    after: &Heap,
    this: Object,
    args: &Args,
    r: Result<Step>,
    result: spec_fn(bool, bool) -> ValueView,
) -> bool {
    if args.args@.len() == 0 {
        fails(before, after, r, no_argument())
    } else {
        match payload(before@, this) {
            ValueView::Boolean(l) => match payload(before@, args.args@[0]) {
                ValueView::Boolean(rhs) => makes(before, after, r, result(l.0, rhs.0)),
                _ => asks_conversion(before, after, r, 0, "@bool"@, Kind::Boolean, true),
            },
            other => fails(before, after, r, not_a_boolean(other)),
        }
    }
}

/// What an operator in place does: it reads the first argument. Where the
/// argument is the receiver itself, and and or leave it as it is, whatever
/// it holds, and exclusive or makes a boolean receiver false. Else the
/// receiver has to hold a boolean, an argument that holds none is to be
/// converted through `@bool`, and on two booleans the receiver comes to
/// hold the result. The result of the call is the receiver.
pub open spec fn assign_spec(
    before: &Heap,
    after: &Heap,
    this: Object,
    args: &Args,
    r: Result<Step>,
    op: Logic,
) -> bool {
    if args.args@.len() == 0 {
        fails(before, after, r, no_argument())
    } else if args.args@[0] == this && op != Logic::Xor {
        r matches Ok(Step::Done(o)) && o == this && after@ == before@
    } else {
        match payload(before@, this) {
            ValueView::Boolean(l) => match payload(before@, args.args@[0]) {
                ValueView::Boolean(rhs) => r matches Ok(Step::Done(o)) && o == this && after@
                    == with_payload(
                    before@,
                    this,
                    ValueView::Boolean(Boolean(op.spec_apply(l.0, rhs.0))),
                ),
                _ => asks_conversion(before, after, r, 0, "@bool"@, Kind::Boolean, true),
            },
            other => fails(before, after, r, not_a_boolean(other)),
        }
    }
}

/// An operator of two booleans.
fn logical(heap: &mut Heap, this: Object, args: &Args, op: Logic) -> (r: Result<Step>)
    requires
        call_ready(old(heap), this, args),
    ensures
        call_kept(old(heap), final(heap), r),
        binary_spec(
            old(heap),
            final(heap),
            this,
            args,
            r,
            |l: bool, r: bool| ValueView::Boolean(Boolean(op.spec_apply(l, r))),
        ),
{
    let rhs = match args.arg(0) {
        Ok(o) => o,
        Err(e) => {
            return Err(e);
        },
    };
    let lhs = match heap.try_downcast_boolean(this) {
        Ok(b) => b,
        Err(e) => {
            return Err(e);
        },
    };
    match heap.downcast_boolean(rhs) {
        Some(b) => make_boolean(heap, op.apply(lhs, b)),
        None => Ok(Step::Convert { index: 0, key: "@bool", to: Kind::Boolean, required: true }),
    }
}

/// An operator of two booleans, in place.
fn logical_assign(heap: &mut Heap, this: Object, args: &Args, op: Logic) -> (r: Result<Step>)
    requires
        call_ready(old(heap), this, args),
    ensures
        call_kept(old(heap), final(heap), r),
        assign_spec(old(heap), final(heap), this, args, r, op),
{
    let rhs = match args.arg(0) {
        Ok(o) => o,
        Err(e) => {
            return Err(e);
        },
    };
    if this.is_identical(rhs) && op != Logic::Xor {
        return Ok(Step::Done(this));
    }
    let lhs = match heap.try_downcast_boolean(this) {
        Ok(b) => b,
        Err(e) => {
            return Err(e);
        },
    };
    match heap.downcast_boolean(rhs) {
        Some(b) => {
            heap.replace_value(this, Value::Boolean(op.apply(lhs, b)));
            Ok(Step::Done(this))
        },
        None => Ok(Step::Convert { index: 0, key: "@bool", to: Kind::Boolean, required: true }),
    }
}

impl convert::Inspect for Boolean {
    /// The text of the boolean.
    fn call(heap: &mut Heap, this: Object, args: &Args) -> (r: Result<Step>)
        ensures
            converts(old(heap), final(heap), this, r, |b: Boolean| ValueView::Text(boolean_text(b))),
    {
        match heap.try_downcast_boolean(this) {
            Ok(b) => make_text(heap, b.to_text()),
            Err(e) => Err(e),
        }
    }
}

impl convert::AtBoolean for Boolean {
    /// A new boolean object that holds the same.
    fn call(heap: &mut Heap, this: Object, args: &Args) -> (r: Result<Step>)
        ensures
            converts(old(heap), final(heap), this, r, |b: Boolean| ValueView::Boolean(b)),
    {
        match heap.try_downcast_boolean(this) {
            Ok(b) => make_boolean(heap, b),
            Err(e) => Err(e),
        }
    }
}

impl convert::AtNumber for Boolean {
    /// One for true, zero for false.
    fn call(heap: &mut Heap, this: Object, args: &Args) -> (r: Result<Step>)
        ensures
            converts(old(heap), final(heap), this, r, |b: Boolean| ValueView::Number(number_of(b))),
    {
        match heap.try_downcast_boolean(this) {
            Ok(b) => make_number(heap, b.to_number()),
            Err(e) => Err(e),
        }
    }
}

impl convert::AtText for Boolean {
    /// `"true"` or `"false"`.
    fn call(heap: &mut Heap, this: Object, args: &Args) -> (r: Result<Step>)
        ensures
            converts(old(heap), final(heap), this, r, |b: Boolean| ValueView::Text(boolean_text(b))),
    {
        match heap.try_downcast_boolean(this) {
            Ok(b) => make_text(heap, b.to_text()),
            Err(e) => Err(e),
        }
    }
}

impl operators::Not for Boolean {
    /// Logical NOT of the receiver.
    fn call(heap: &mut Heap, this: Object, args: &Args) -> (r: Result<Step>)
        ensures
            converts(
                old(heap),
                final(heap),
                this,
                r,
                |b: Boolean| ValueView::Boolean(Boolean(!b.0)),
            ),
    {
        match heap.try_downcast_boolean(this) {
            Ok(b) => make_boolean(heap, b.not()),
            Err(e) => Err(e),
        }
    }
}

impl operators::Eql for Boolean {
    /// Whether the receiver is equal to the first argument, which is not
    /// converted.
    fn call(heap: &mut Heap, this: Object, args: &Args) -> (r: Result<Step>)
        ensures
            eql_spec(old(heap), final(heap), this, args, r),
    {
        let rhs = match args.arg(0) {
            Ok(o) => o,
            Err(e) => {
                return Err(e);
            },
        };
        if this.is_identical(rhs) {
            return make_boolean(heap, Boolean::new(true));
        }
        let lhs = match heap.try_downcast_boolean(this) {
            Ok(b) => b,
            Err(e) => {
                return Err(e);
            },
        };
        let same = match heap.downcast_boolean(rhs) {
            Some(b) => lhs.eql(b),
            None => Boolean::new(false),
        };
        make_boolean(heap, same)
    }
}

impl operators::Cmp for Boolean {
    /// How the receiver stands to the first argument, as a number.
    fn call(heap: &mut Heap, this: Object, args: &Args) -> (r: Result<Step>)
        ensures
            binary_spec(
                old(heap),
                final(heap),
                this,
                args,
                r,
                |l: bool, r: bool| ValueView::Number(ordering_number(boolean_order(l, r))),
            ),
    {
        let rhs = match args.arg(0) {
            Ok(o) => o,
            Err(e) => {
                return Err(e);
            },
        };
        let lhs = match heap.try_downcast_boolean(this) {
            Ok(b) => b,
            Err(e) => {
                return Err(e);
            },
        };
        match heap.downcast_boolean(rhs) {
            Some(b) => make_number(heap, number_of_ordering(lhs.compare(b))),
            None => Ok(Step::Convert { index: 0, key: "@bool", to: Kind::Boolean, required: true }),
        }
    }
}

impl operators::BitAnd for Boolean {
    /// Logical AND of the receiver and the first argument.
    fn call(heap: &mut Heap, this: Object, args: &Args) -> (r: Result<Step>)
        ensures
            binary_spec(
                old(heap),
                final(heap),
                this,
                args,
                r,
                |l: bool, r: bool| ValueView::Boolean(Boolean(l && r)),
            ),
    {
        logical(heap, this, args, Logic::And)
    }
}

impl operators::BitOr for Boolean {
    /// Logical OR of the receiver and the first argument.
    fn call(heap: &mut Heap, this: Object, args: &Args) -> (r: Result<Step>)
        ensures
            binary_spec(
                old(heap),
                final(heap),
                this,
                args,
                r,
                |l: bool, r: bool| ValueView::Boolean(Boolean(l || r)),
            ),
    {
        logical(heap, this, args, Logic::Or)
    }
}

impl operators::BitXor for Boolean {
    /// Logical XOR of the receiver and the first argument.
    fn call(heap: &mut Heap, this: Object, args: &Args) -> (r: Result<Step>)
        ensures
            binary_spec(
                old(heap),
                final(heap),
                this,
                args,
                r,
                |l: bool, r: bool| ValueView::Boolean(Boolean(l != r)),
            ),
    {
        logical(heap, this, args, Logic::Xor)
    }
}

impl operators::BitAndAssign for Boolean {
    /// Logical AND of the receiver and the first argument, in place.
    fn call(heap: &mut Heap, this: Object, args: &Args) -> (r: Result<Step>)
        ensures
            assign_spec(old(heap), final(heap), this, args, r, Logic::And),
    {
        logical_assign(heap, this, args, Logic::And)
    }
}

impl operators::BitOrAssign for Boolean {
    /// Logical OR of the receiver and the first argument, in place.
    fn call(heap: &mut Heap, this: Object, args: &Args) -> (r: Result<Step>)
        ensures
            assign_spec(old(heap), final(heap), this, args, r, Logic::Or),
    {
        logical_assign(heap, this, args, Logic::Or)
    }
}

impl operators::BitXorAssign for Boolean {
    /// Logical XOR of the receiver and the first argument, in place.
    fn call(heap: &mut Heap, this: Object, args: &Args) -> (r: Result<Step>)
        ensures
            assign_spec(old(heap), final(heap), this, args, r, Logic::Xor),
    {
        logical_assign(heap, this, args, Logic::Xor)
    }
}

/// What a function of a boolean receiver does with arguments that carry
/// the receiver: it fails without one, and on one that holds no boolean;
/// on a boolean it does what `next` says.
pub open spec fn on_boolean(
    before: &Heap,
    after: &Heap,
    args: &Args,
    r: Result<Step>,
    next: spec_fn(Boolean) -> bool,
) -> bool {
    match args.this {
        None => fails(before, after, r, no_receiver()),
        Some(this) => match payload(before@, this) {
            ValueView::Boolean(b) => next(b),
            other => fails(before, after, r, not_a_boolean(other)),
        },
    }
}

/// What an operator of two booleans does with arguments that carry the
/// receiver: the receiver is looked at first, then the first argument,
/// which is converted through `@bool` where it holds no boolean.
pub open spec fn on_two_booleans(
    before: &Heap,
    after: &Heap,
    args: &Args,
    r: Result<Step>,
    op: Logic,
) -> bool {
    on_boolean(
        before,
        after,
        args,
        r,
        |l: Boolean|
            if args.args@.len() == 0 {
                fails(before, after, r, no_argument())
            } else {
                match payload(before@, args.args@[0]) {
                    ValueView::Boolean(rhs) => makes(
                        before,
                        after,
                        r,
                        ValueView::Boolean(Boolean(op.spec_apply(l.0, rhs.0))),
                    ),
                    _ => asks_conversion(before, after, r, 0, "@bool"@, Kind::Boolean, true),
                }
            },
    )
}

/// The boolean that the receiver of `args` holds.
fn this_boolean(heap: &Heap, args: &Args) -> (r: Result<Boolean>)
    requires
        args_ready(heap, args),
    ensures
        match args.this {
            None => r matches Err(e) && e == no_receiver(),
            Some(this) => match payload(heap@, this) {
                ValueView::Boolean(b) => r == Ok::<Boolean, Error>(b),
                other => r matches Err(e) && e == not_a_boolean(other),
            },
        },
{
    match args.this() {
        Ok(this) => heap.try_downcast_boolean(this),
        Err(e) => Err(e),
    }
}

/// An operator of two booleans, on arguments that carry the receiver.
fn logical_on(heap: &mut Heap, args: &Args, op: Logic) -> (r: Result<Step>)
    requires
        args_ready(old(heap), args),
    ensures
        call_kept(old(heap), final(heap), r),
        on_two_booleans(old(heap), final(heap), args, r, op),
{
    let lhs = match this_boolean(heap, args) {
        Ok(b) => b,
        Err(e) => {
            return Err(e);
        },
    };
    let rhs = match args.arg(0) {
        Ok(o) => o,
        Err(e) => {
            return Err(e);
        },
    };
    match heap.downcast_boolean(rhs) {
        Some(b) => make_boolean(heap, op.apply(lhs, b)),
        None => Ok(Step::Convert { index: 0, key: "@bool", to: Kind::Boolean, required: true }),
    }
}

/// What [`at_num`] does.
pub open spec fn at_num_spec(before: &Heap, after: &Heap, args: &Args, r: Result<Step>) -> bool {
    &&& on_boolean(
        before,
        after,
        args,
        r,
        |b: Boolean| makes(before, after, r, ValueView::Number(number_of(b))),
    )
}

/// The number of the receiver: one for true, zero for false.
pub fn at_num(heap: &mut Heap, args: &Args) -> (r: Result<Step>)
    requires
        args_ready(old(heap), args),
    ensures
        call_kept(old(heap), final(heap), r),
        at_num_spec(old(heap), final(heap), args, r),
{
    match this_boolean(heap, args) {
        Ok(b) => make_number(heap, b.to_number()),
        Err(e) => Err(e),
    }
}

/// What [`at_text`] does.
pub open spec fn at_text_spec(before: &Heap, after: &Heap, args: &Args, r: Result<Step>) -> bool {
    &&& on_boolean(
        before,
        after,
        args,
        r,
        |b: Boolean| makes(before, after, r, ValueView::Text(boolean_text(b))),
    )
}

/// The text of the receiver: `"true"` or `"false"`.
pub fn at_text(heap: &mut Heap, args: &Args) -> (r: Result<Step>)
    requires
        args_ready(old(heap), args),
    ensures
        call_kept(old(heap), final(heap), r),
        at_text_spec(old(heap), final(heap), args, r),
{
    match this_boolean(heap, args) {
        Ok(b) => make_text(heap, b.to_text()),
        Err(e) => Err(e),
    }
}

/// What [`at_bool`] does.
pub open spec fn at_bool_spec(before: &Heap, after: &Heap, args: &Args, r: Result<Step>) -> bool {
    &&& after@ == before@
    &&& match args.this {
        None => r matches Err(e) && e == no_receiver(),
        Some(this) => match resolve(
            before@,
            this,
            KeyId::Name("clone"@),
            before@.len(),
        ) {
            Resolution::Found(v) => match payload(before@, v) {
                ValueView::RustFn(f) => r matches Ok(Step::Call(call)) && call.func == f
                    && call.args.this == Some(this) && call.args.args@ == args.args@,
                other => r matches Err(e) && e == Error::TypeError(
                    TypeError::NotCallable { got: other.kind() },
                ),
            },
            Resolution::Missing => r matches Err(
                Error::KeyError(KeyError::DoesntExist { attr: Key::Literal(k), obj }),
            ) && k@ == "clone"@ && obj == this,
            res => r matches Err(e) && fails_with(e, res),
        },
    }
}

/// The boolean of the receiver, which is what its attribute `clone`
/// gives: the call resolves `clone` on the receiver and hands back the
/// call to make, with the same arguments. A key error where nothing
/// resolves `clone`, a type error where it resolves to something that is
/// no native function.
pub fn at_bool(heap: &mut Heap, args: &Args) -> (r: Result<Step>)
    requires
        args_ready(old(heap), args),
    ensures
        call_kept(old(heap), final(heap), r),
        at_bool_spec(old(heap), final(heap), args, r),
{
    let this = match args.this() {
        Ok(o) => o,
        Err(e) => {
            return Err(e);
        },
    };
    match heap.call_attr(this, &Key::Literal("clone"), args.args.clone()) {
        Ok(call) => Ok(Step::Call(call)),
        Err(e) => Err(e),
    }
}

/// What [`clone`] does.
pub open spec fn clone_spec(before: &Heap, after: &Heap, args: &Args, r: Result<Step>) -> bool {
    &&& on_boolean(
        before,
        after,
        args,
        r,
        |b: Boolean| makes(before, after, r, ValueView::Boolean(b)),
    )
}

/// A new boolean object that holds what the receiver holds.
pub fn clone(heap: &mut Heap, args: &Args) -> (r: Result<Step>)
    requires
        args_ready(old(heap), args),
    ensures
        call_kept(old(heap), final(heap), r),
        clone_spec(old(heap), final(heap), args, r),
{
    match this_boolean(heap, args) {
        Ok(b) => make_boolean(heap, b),
        Err(e) => Err(e),
    }
}

/// What [`eql`] does.
pub open spec fn plain_eql_spec(before: &Heap, after: &Heap, args: &Args, r: Result<Step>) -> bool {
    &&& on_boolean(
        before,
        after,
        args,
        r,
        |l: Boolean|
            makes(
                before,
                after,
                r,
                ValueView::Boolean(
                    Boolean(
                        args.args@.len() > 0 && payload(before@, args.args@[0])
                            == ValueView::Boolean(l),
                    ),
                ),
            ),
    )
}

/// Whether the receiver is equal to the first argument: true for an
/// argument that holds the same boolean, false for any other and for
/// none.
pub fn eql(heap: &mut Heap, args: &Args) -> (r: Result<Step>)
    requires
        args_ready(old(heap), args),
    ensures
        call_kept(old(heap), final(heap), r),
        plain_eql_spec(old(heap), final(heap), args, r),
{
    let lhs = match this_boolean(heap, args) {
        Ok(b) => b,
        Err(e) => {
            return Err(e);
        },
    };
    let same = match args.arg(0) {
        Ok(rhs) => match heap.downcast_boolean(rhs) {
            Some(b) => lhs.eql(b),
            None => Boolean::new(false),
        },
        Err(_) => Boolean::new(false),
    };
    make_boolean(heap, same)
}

/// What [`not`] does.
pub open spec fn not_spec(before: &Heap, after: &Heap, args: &Args, r: Result<Step>) -> bool {
    &&& on_boolean(
        before,
        after,
        args,
        r,
        |b: Boolean| makes(before, after, r, ValueView::Boolean(Boolean(!b.0))),
    )
}

/// Logical NOT of the receiver.
pub fn not(heap: &mut Heap, args: &Args) -> (r: Result<Step>)
    requires
        args_ready(old(heap), args),
    ensures
        call_kept(old(heap), final(heap), r),
        not_spec(old(heap), final(heap), args, r),
{
    match this_boolean(heap, args) {
        Ok(b) => make_boolean(heap, b.not()),
        Err(e) => Err(e),
    }
}

/// Logical AND of the receiver and the first argument.
pub fn bitand(heap: &mut Heap, args: &Args) -> (r: Result<Step>)
    requires
        args_ready(old(heap), args),
    ensures
        call_kept(old(heap), final(heap), r),
        on_two_booleans(old(heap), final(heap), args, r, Logic::And),
{
    logical_on(heap, args, Logic::And)
}

/// Logical OR of the receiver and the first argument.
pub fn bitor(heap: &mut Heap, args: &Args) -> (r: Result<Step>)
    requires
        args_ready(old(heap), args),
    ensures
        call_kept(old(heap), final(heap), r),
        on_two_booleans(old(heap), final(heap), args, r, Logic::Or),
{
    logical_on(heap, args, Logic::Or)
}

/// Logical XOR of the receiver and the first argument.
pub fn bitxor(heap: &mut Heap, args: &Args) -> (r: Result<Step>)
    requires
        args_ready(old(heap), args),
    ensures
        call_kept(old(heap), final(heap), r),
        on_two_booleans(old(heap), final(heap), args, r, Logic::Xor),
{
    logical_on(heap, args, Logic::Xor)
}

/// What [`cmp`] does.
pub open spec fn order_spec(before: &Heap, after: &Heap, args: &Args, r: Result<Step>) -> bool {
    &&& on_boolean(
        before,
        after,
        args,
        r,
        |l: Boolean|
            if args.args@.len() == 0 {
                fails(before, after, r, no_argument())
            } else {
                match payload(before@, args.args@[0]) {
                    ValueView::Boolean(rhs) => makes(
                        before,
                        after,
                        r,
                        ValueView::Number(ordering_number(boolean_order(l.0, rhs.0))),
                    ),
                    _ => asks_conversion(before, after, r, 0, "@bool"@, Kind::Boolean, true),
                }
            },
    )
}

/// How the receiver stands to the first argument, as a number: -1, 0 or
/// 1, with false below true. The receiver is looked at first, then the
/// first argument, which is converted through `@bool` where it holds no
/// boolean.
pub fn cmp(heap: &mut Heap, args: &Args) -> (r: Result<Step>)
    requires
        args_ready(old(heap), args),
    ensures
        call_kept(old(heap), final(heap), r),
        order_spec(old(heap), final(heap), args, r),
{
    let lhs = match this_boolean(heap, args) {
        Ok(b) => b,
        Err(e) => {
            return Err(e);
        },
    };
    let rhs = match args.arg(0) {
        Ok(o) => o,
        Err(e) => {
            return Err(e);
        },
    };
    match heap.downcast_boolean(rhs) {
        Some(b) => make_number(heap, number_of_ordering(lhs.compare(b))),
        None => Ok(Step::Convert { index: 0, key: "@bool", to: Kind::Boolean, required: true }),
    }
}

} // verus!
