//! What a native function hands back: its result, or what has to happen
//! before it can give one.

use vstd::prelude::*;
use crate::args::{Args, Invocation};
use crate::boolean::Boolean;
use crate::error::{Error, KeyError, Result, TypeError};
use crate::heap::Heap;
use crate::key::{Key, Literal};
use crate::number::Number;
use crate::object::{Kind, Object, Value, ValueView};
use crate::rustfn::MathOp;
use crate::key::KeyId;
use crate::store::{key_closed, payload, resolve, CellView, Resolution};

verus! {

/// What the floating-point unit is asked to compute.
#[derive(Debug, Clone, Copy, PartialEq, Eq, Structural)]
pub enum FloatOp {
    /// `lhs` and `rhs` under an arithmetic operator.
    Math(MathOp),
    /// `lhs` negated.
    Neg,
    /// The absolute value of `lhs`.
    Abs,
    /// The largest integer not above `lhs`.
    Floor,
    /// The smallest integer not below `lhs`.
    Ceil,
    /// Whether `lhs` and `rhs` are numerically equal.
    Eql,
    /// How `lhs` stands to `rhs`.
    Cmp,
    /// The text of `lhs`.
    Text,
}

/// Where the result of a floating-point computation goes.
#[derive(Debug, Clone, Copy, PartialEq, Eq, Structural)]
pub enum Target {
    /// It becomes a new object, which is the result of the call.
    Result,
    /// It is stored in this number object, which is the result of the
    /// call.
    Receiver(Object),
    /// It becomes a new object that takes the place of the positional
    /// argument at this index, and the call is made again.
    Argument(usize),
}

/// A computation on numbers of which at least one is held as a
/// floating-point value.
#[derive(Debug, Clone, Copy, PartialEq, Eq, Structural)]
pub struct FloatTask {
    pub op: FloatOp,
    pub lhs: Number,
    /// The right operand; zero where the operation has one operand.
    pub rhs: Number,
    pub target: Target,
}

/// Every object of `objects` names one of `len` cells.
pub open spec fn objects_within(objects: Seq<Object>, len: nat) -> bool {
    forall|i: int| 0 <= i < objects.len() ==> (#[trigger] objects[i]).id < len
}

/// What a lookup is made for.
#[derive(Debug)]
pub enum Sequel {
    /// The value that the lookup finds is the result. It is an error that
    /// it finds none.
    Value,
    /// The result is a boolean: whether the lookup finds a value.
    Presence,
    /// The result is that of calling the value that the lookup finds, with
    /// these arguments.
    Call(Vec<Object>),
}

/// A [`Sequel`] on plain values.
pub enum SequelView {
    Value,
    Presence,
    Call(Seq<Object>),
}

impl SequelView {
    /// Every object of the sequel names one of `len` cells.
    pub open spec fn within(self, len: nat) -> bool {
        match self {
            SequelView::Call(args) => objects_within(args, len),
            _ => true,
        }
    }
}

impl View for Sequel {
    type V = SequelView;

    open spec fn view(&self) -> SequelView {
        match self {
            Sequel::Value => SequelView::Value,
            Sequel::Presence => SequelView::Presence,
            Sequel::Call(args) => SequelView::Call(args@),
        }
    }
}

/// What a native function hands back.
#[derive(Debug)]
pub enum Step {
    /// The call is complete and this is its result.
    Done(Object),
    /// The result of the call is the result of this call.
    Call(Invocation),
    /// The positional argument at `index` is not of the type `to` that the
    /// function works on. It is to be converted by calling its attribute
    /// `key` without arguments, and the call made again with the result in
    /// its place. Where the conversion is not `required`, one that fails is
    /// no error: the call is then made again without the argument and
    /// those after it. See [`crate::resume`].
    Convert { index: usize, key: Literal, to: Kind, required: bool },
    /// The result is what the floating-point unit computes.
    Float(FloatTask),
    /// The search for attribute `attr` of `obj` came to parents held by an
    /// object that is no list. The lookup is to be made with that object
    /// converted to a list, and the call goes on with what it finds as
    /// `then` says. See [`crate::resume`].
    Seek { obj: Object, attr: Key, then: Sequel },
}

impl Step {
    /// Every object of the step names one of `len` cells.
    pub open spec fn within(self, len: nat) -> bool {
        match self {
            Step::Done(o) => o.id < len,
            Step::Call(call) => call.args.within(len),
            Step::Convert { .. } => true,
            Step::Float(task) => task.target matches Target::Receiver(o) ==> o.id < len,
            Step::Seek { obj, attr, then } => obj.id < len && key_closed(attr, len)
                && then@.within(len),
        }
    }
}

/// What a call needs: a well-formed store that holds the receiver and the
/// arguments.
pub open spec fn call_ready(heap: &Heap, this: Object, args: &Args) -> bool {
    &&& heap.wf()
    &&& heap.has(this)
    &&& args.within(heap@.len())
}

/// What every call keeps: the store is well formed, no cell is gone, the
/// registered prototypes are the same, and what is handed back names
/// cells of the store.
pub open spec fn call_kept(before: &Heap, after: &Heap, r: Result<Step>) -> bool {
    &&& after.wf()
    &&& after@.len() >= before@.len()
    &&& after.mappings() == before.mappings()
    &&& r matches Ok(step) ==> step.within(after@.len())
}

/// The call failed with `e` and left the store as it was.
pub open spec fn fails(before: &Heap, after: &Heap, r: Result<Step>, e: Error) -> bool {
    &&& r matches Err(x) && x == e
    &&& after@ == before@
}

/// The call is complete, and its result is a new object that holds
/// `value`, has no attributes of its own, and has the prototype of its
/// type as its parent. Nothing else changed.
pub open spec fn makes(before: &Heap, after: &Heap, r: Result<Step>, value: ValueView) -> bool {
    &&& r matches Ok(Step::Done(o)) && o.id == before@.len()
    &&& after@ == before@.push(
        CellView {
            value,
            attrs: Map::empty(),
            parents: before.mappings().parents_for(value.kind()),
        },
    )
}

/// Whether `obj` can be asked to convert itself through `key`: the key
/// resolves on it to a native function.
pub open spec fn convertible(store: Seq<CellView>, obj: Object, key: Seq<char>) -> bool {
    resolve(store, obj, KeyId::Name(key), store.len()) matches Resolution::Found(held)
        && payload(store, held) is RustFn
}

/// The call asks for the positional argument at `index` to be converted
/// to the type `to` through `key`, and left the store as it was. A
/// conversion that is `required` fails the call where it fails.
pub open spec fn asks_conversion(
    before: &Heap,
    after: &Heap,
    r: Result<Step>,
    index: usize,
    key: Seq<char>,
    to: Kind,
    required: bool,
) -> bool {
    &&& r matches Ok(Step::Convert { index: i, key: k, to: t, required: q }) && i == index && k@
        == key && t == to && q == required
    &&& after@ == before@
}

/// Takes the result of a conversion: it has to be of the type that was
/// asked for. Only this makes a conversion that went through a type
/// error.
pub fn converted(heap: &Heap, key: Literal, to: Kind, obj: Object) -> (r: Result<Object>)
    requires
        heap.has(obj),
    ensures
        r == if heap@[obj.id as int].value.kind() == to {
            Ok::<Object, Error>(obj)
        } else {
            Err(
                Error::TypeError(
                    TypeError::ConversionReturnedBadType {
                        func: key,
                        expected: to,
                        got: heap@[obj.id as int].value.kind(),
                    },
                ),
            )
        },
{
    let got = heap.kind(obj);
    if got == to {
        Ok(obj)
    } else {
        Err(Error::TypeError(TypeError::ConversionReturnedBadType { func: key, expected: to, got }))
    }
}

/// The call asks the floating-point unit for `task`, and left the store
/// as it was.
pub open spec fn asks_float(before: &Heap, after: &Heap, r: Result<Step>, task: FloatTask) -> bool {
    &&& r matches Ok(Step::Float(t)) && t == task
    &&& after@ == before@
}

/// What arguments need: a well-formed store that holds the receiver, if
/// there is one, and the arguments.
pub open spec fn args_ready(heap: &Heap, args: &Args) -> bool {
    &&& heap.wf()
    &&& args.within(heap@.len())
}

/// The error of a call without a receiver.
pub open spec fn no_receiver() -> Error {
    Error::KeyError(KeyError::NoThisSupplied)
}

/// The error of a call without the positional argument it reads first.
pub open spec fn no_argument() -> Error {
    Error::KeyError(KeyError::OutOfBounds { idx: 0, len: 0 })
}

/// Makes a new object that holds `b`.
pub fn make_boolean(heap: &mut Heap, b: Boolean) -> (r: Result<Step>)
    requires
        old(heap).wf(),
    ensures
        call_kept(old(heap), final(heap), r),
        makes(old(heap), final(heap), r, ValueView::Boolean(b)),
{
    let obj = heap.new_object(Value::Boolean(b));
    Ok(Step::Done(obj))
}

/// Makes a new object that holds `n`.
pub fn make_number(heap: &mut Heap, n: Number) -> (r: Result<Step>)
    requires
        old(heap).wf(),
    ensures
        call_kept(old(heap), final(heap), r),
        makes(old(heap), final(heap), r, ValueView::Number(n)),
{
    let obj = heap.new_object(Value::Number(n));
    Ok(Step::Done(obj))
}

/// Makes a new object that holds the text `s`.
pub fn make_text(heap: &mut Heap, s: &str) -> (r: Result<Step>)
    requires
        old(heap).wf(),
    ensures
        call_kept(old(heap), final(heap), r),
        makes(old(heap), final(heap), r, ValueView::Text(s@)),
{
    let obj = heap.new_object(Value::Text(s.to_owned()));
    Ok(Step::Done(obj))
}

} // verus!
