//! How work goes on that takes turns with calls: a call, once what it
//! asked for is there (the result of a conversion, or the answer of the
//! floating-point unit); a lookup that comes to parents held by an object
//! that is no list, which is converted to one; and the adding of a parent
//! to such parents, which is that object's to do.

use vstd::prelude::*;
use crate::args::{Args, Invocation};
use crate::attrs::literals::{AT_LIST, PUSH};
use crate::error::{Error, KeyError, Result, TypeError, PARENTS_CYCLE};
use crate::heap::{listed, listings_closed, Heap, Listing};
use crate::key::{Key, KeyId, Literal};
use crate::parents::Parents;
use crate::object::{Kind, Object, Value, ValueView};
use crate::number::{from_float, Inner, Number};
use crate::rustfn::MathOp;
use crate::boolean::Boolean;
use crate::step::{
    args_ready, call_kept, make_boolean, makes, FloatOp, FloatTask, Sequel, SequelView, Step,
    Target,
};
use crate::store::{
    fails_with, key_closed, key_id, payload, resolve, value_closed, with_payload, CellView,
    ParentsView, Resolution,
};

verus! {

/// How a call goes on.
#[derive(Debug)]
pub enum Resumed {
    /// The call is complete and this is its result.
    Done(Object),
    /// The call is to be made again, with these arguments.
    Again(Args),
}

/// The error of an argument that was asked for and is not there.
pub open spec fn no_such_argument(index: usize, args: &Args) -> Error {
    Error::KeyError(KeyError::OutOfBounds { idx: index, len: args.args@.len() as usize })
}

/// `a` is `args` with the positional argument at `index` replaced by
/// `obj`.
pub open spec fn replaces(a: Args, args: &Args, index: usize, obj: Object) -> bool {
    a.this == args.this && a.args@ == args.args@.update(index as int, obj)
}

/// `a` is `args` without the positional argument at `index` and those
/// after it.
pub open spec fn drops(a: Args, args: &Args, index: usize) -> bool {
    a.this == args.this && a.args@ == args.args@.take(index as int)
}

/// `r` is the call of attribute `key` of `obj` with `args`, bound to
/// `obj` as the receiver. It is an error where nothing resolves the key
/// on `obj`, where the search for it fails, and where the key resolves
/// to something that is no native function.
pub open spec fn binds(
    store: Seq<CellView>,
    r: Result<Invocation>,
    obj: Object,
    key: Literal,
    args: Seq<Object>,
) -> bool {
    match resolve(store, obj, KeyId::Name(key@), store.len()) {
        Resolution::Found(held) => match payload(store, held) {
            ValueView::RustFn(f) => r matches Ok(call) && call.func == f && call.args.this
                == Some(obj) && call.args.args@ == args,
            other => r matches Err(e) && e == Error::TypeError(
                TypeError::NotCallable { got: other.kind() },
            ),
        },
        Resolution::Missing => r matches Err(e) && e == Error::KeyError(
            KeyError::DoesntExist { attr: Key::Literal(key), obj },
        ),
        res => r matches Err(e) && fails_with(e, res),
    }
}

/// The call that converts the positional argument at `index`: its
/// attribute `key`, called on it without arguments. It fails where the
/// argument is not there, where nothing resolves the key on it, and where
/// the key resolves to something that is no native function.
pub fn conversion_call(heap: &Heap, args: &Args, index: usize, key: Literal) -> (r: Result<
    Invocation,
>)
    requires
        args_ready(heap, args),
    ensures
        if index >= args.args@.len() {
            r matches Err(e) && e == no_such_argument(index, args)
        } else {
            binds(heap@, r, args.args@[index as int], key, Seq::<Object>::empty())
        },
{
    let arg = match args.arg(index) {
        Ok(o) => o,
        Err(e) => {
            return Err(e);
        },
    };
    heap.call_attr(arg, &Key::Literal(key), Vec::new())
}

/// What the conversion of an argument comes to: the object it gave, where
/// it gave one of the type asked for, and else the error that it ends in.
pub open spec fn conversion_result(
    store: Seq<CellView>,
    key: Literal,
    to: Kind,
    outcome: Result<Object>,
) -> Result<Object> {
    match outcome {
        Ok(obj) => if payload(store, obj).kind() == to {
            Ok(obj)
        } else {
            Err(
                Error::TypeError(
                    TypeError::ConversionReturnedBadType {
                        func: key,
                        expected: to,
                        got: payload(store, obj).kind(),
                    },
                ),
            )
        },
        Err(e) => Err(e),
    }
}

/// The arguments to make a call with again, once the conversion that it
/// asked for has ended in `outcome`. A result of the type asked for takes
/// the place of the argument. Any other outcome fails the call where the
/// conversion was required, and else drops the argument and those after
/// it. It is an error that the argument is not there.
pub fn after_conversion(
    heap: &Heap,
    args: &Args,
    index: usize,
    key: Literal,
    to: Kind,
    required: bool,
    outcome: Result<Object>,
) -> (r: Result<Args>)
    requires
        outcome matches Ok(obj) ==> heap.has(obj),
    ensures
        args.within(heap@.len()) && r is Ok ==> r->Ok_0.within(heap@.len()),
        if index >= args.args@.len() {
            r matches Err(e) && e == no_such_argument(index, args)
        } else {
            match conversion_result(heap@, key, to, outcome) {
                Ok(obj) => r matches Ok(a) && replaces(a, args, index, obj),
                Err(e) => if required {
                    r matches Err(x) && x == e
                } else {
                    r matches Ok(a) && drops(a, args, index)
                },
            }
        },
{
    if index >= args.len() {
        return Err(Error::KeyError(KeyError::OutOfBounds { idx: index, len: args.len() }));
    }
    let checked = match outcome {
        Ok(obj) => crate::step::converted(heap, key, to, obj),
        Err(e) => Err(e),
    };
    match checked {
        Ok(obj) => {
            let again = args.with_arg(index, obj);
            proof {
                if args.within(heap@.len()) {
                    assert forall|i: int| 0 <= i < again.args@.len() implies (
                    #[trigger] again.args@[i]).id < heap@.len() by {
                        if i != index {
                            assert(again.args@[i] == args.args@[i]);
                        }
                    }
                }
            }
            Ok(again)
        },
        Err(e) => {
            if required {
                Err(e)
            } else {
                let mut kept: Vec<Object> = Vec::new();
                let mut i: usize = 0;
                while i < index
                    invariant
                        i <= index < args.args@.len(),
                        kept@ == args.args@.take(i as int),
                    decreases index - i,
                {
                    kept.push(args.args[i]);
                    assert(args.args@.take(i as int + 1) =~= args.args@.take(i as int).push(
                        args.args@[i as int],
                    ));
                    i += 1;
                }
                proof {
                    if args.within(heap@.len()) {
                        assert forall|i: int| 0 <= i < kept@.len() implies (#[trigger] kept@[i]).id
                            < heap@.len() by {
                            assert(kept@[i] == args.args@[i]);
                        }
                    }
                }
                Ok(Args { this: args.this, args: kept })
            }
        },
    }
}

/// Whether the answer to a task is held as an integer where it is a whole
/// number that fits: the quotient of two integers, a power, a negation and
/// an absolute value are; a sum, a difference, a product and a remainder
/// stay floating-point values.
pub open spec fn answer_collapses(task: FloatTask) -> bool {
    match task.op {
        FloatOp::Math(MathOp::Div) => task.lhs.0 is Integer && task.rhs.0 is Integer,
        FloatOp::Math(MathOp::Pow) | FloatOp::Neg | FloatOp::Abs => true,
        _ => false,
    }
}

/// The number that the floating-point unit's answer to `task` is held
/// as, from the bits of the answer.
pub fn number_of_answer(task: &FloatTask, bits: u64) -> (n: Number)
    ensures
        n == if answer_collapses(*task) {
            from_float(bits)
        } else {
            Number(Inner::Float(bits))
        },
{
    let collapses = match task.op {
        FloatOp::Math(MathOp::Div) => task.lhs.is_integer() && task.rhs.is_integer(),
        FloatOp::Math(MathOp::Pow) => true,
        FloatOp::Neg => true,
        FloatOp::Abs => true,
        _ => false,
    };
    if collapses {
        Number::from_float_bits(bits)
    } else {
        Number::from_bits(bits)
    }
}

/// What the answer of the floating-point unit does to a call, by where
/// the answer goes.
pub open spec fn float_resumes(
    before: &Heap,
    after: &Heap,
    args: &Args,
    target: Target,
    value: ValueView,
    r: Result<Resumed>,
) -> bool {
    let made = before@.push(
        CellView {
            value,
            attrs: Map::empty(),
            parents: before.mappings().parents_for(value.kind()),
        },
    );
    match target {
        Target::Result => r matches Ok(Resumed::Done(o)) && o.id == before@.len() && after@
            == made,
        Target::Receiver(obj) => if payload(before@, obj).kind() == value.kind() {
            r matches Ok(Resumed::Done(o)) && o == obj && after@ == with_payload(
                before@,
                obj,
                value,
            )
        } else {
            r matches Err(e) && e == Error::TypeError(
                TypeError::WrongType {
                    expected: payload(before@, obj).kind(),
                    got: value.kind(),
                },
            ) && after@ == before@
        },
        Target::Argument(index) => if index < args.args@.len() {
            r matches Ok(Resumed::Again(a)) && after@ == made && replaces(
                a,
                args,
                index,
                Object { id: before@.len() as usize },
            )
        } else {
            r matches Err(e) && e == no_such_argument(index, args) && after@ == before@
        },
    }
}

/// Takes the answer of the floating-point unit to the task that a call
/// asked for. An answer that is the result becomes a new object, and the
/// call is complete. An answer for the receiver is stored in it, and has
/// to be of the type that the receiver holds. An answer for an argument
/// becomes a new object that takes the place of the argument, and the
/// call is to be made again.
pub fn after_float(heap: &mut Heap, args: &Args, target: Target, value: Value) -> (r: Result<
    Resumed,
>)
    requires
        args_ready(old(heap), args),
        value_closed(value@, old(heap)@.len()),
        target matches Target::Receiver(obj) ==> old(heap).has(obj),
    ensures
        final(heap).wf(),
        final(heap).mappings() == old(heap).mappings(),
        float_resumes(old(heap), final(heap), args, target, value@, r),
        r matches Ok(Resumed::Done(o)) ==> final(heap).has(o),
        r matches Ok(Resumed::Again(a)) ==> a.within(final(heap)@.len()),
{
    match target {
        Target::Result => {
            let obj = heap.new_object(value);
            Ok(Resumed::Done(obj))
        },
        Target::Receiver(obj) => {
            let held = heap.kind(obj);
            let got = value.kind();
            if held == got {
                heap.replace_value(obj, value);
                Ok(Resumed::Done(obj))
            } else {
                Err(Error::TypeError(TypeError::WrongType { expected: held, got }))
            }
        },
        Target::Argument(index) => {
            if index < args.len() {
                let obj = heap.new_object(value);
                let again = args.with_arg(index, obj);
                proof {
                    assert forall|i: int| 0 <= i < again.args@.len() implies (
                    #[trigger] again.args@[i]).id < heap@.len() by {
                        if i != index {
                            assert(again.args@[i] == args.args@[i]);
                        }
                    }
                }
                Ok(Resumed::Again(again))
            } else {
                Err(Error::KeyError(KeyError::OutOfBounds { idx: index, len: args.len() }))
            }
        },
    }
}

/// How a lookup goes on.
#[derive(Debug)]
pub enum Sought {
    /// The lookup has ended: in the value of the attribute, or in none
    /// where nothing resolves the key.
    Settled(Option<Object>),
    /// The search came to parents held by `holder`, which is no list:
    /// `call` converts it to one, and the lookup is to be made again with
    /// the list that the call gives.
    Convert { holder: Object, call: Invocation },
}

/// `r` is how a lookup goes on whose search ended in `res`: where the
/// search came to parents held by an object that is no list, with the
/// call of that object's conversion to a list, or with the error of a
/// conversion that cannot be called.
pub open spec fn seeks(store: Seq<CellView>, r: Result<Sought>, res: Resolution) -> bool {
    match res {
        Resolution::Found(v) => r matches Ok(Sought::Settled(Some(x))) && x == v,
        Resolution::Missing => r matches Ok(Sought::Settled(None)),
        Resolution::TooDeep => r matches Err(e) && e == Error::Internal(PARENTS_CYCLE),
        Resolution::NotAList(holder, _) => match r {
            Ok(Sought::Convert { holder: h, call }) => h == holder && binds(
                store,
                Ok::<Invocation, Error>(call),
                holder,
                AT_LIST,
                Seq::<Object>::empty(),
            ),
            Ok(_) => false,
            Err(e) => binds(
                store,
                Err::<Invocation, Error>(e),
                holder,
                AT_LIST,
                Seq::<Object>::empty(),
            ),
        },
    }
}

/// One turn of the lookup of `key` on `obj`, with the lists that the
/// holders of parents met so far were converted to. The search is made
/// in the store in which each of these holders holds its list; where it
/// comes to another holder that is no list, the turn ends in the call
/// that converts that one. The store stays as it is.
pub fn seek(heap: &mut Heap, obj: Object, key: &Key, listings: &Vec<Listing>) -> (r: Result<
    Sought,
>)
    requires
        old(heap).wf(),
        old(heap).has(obj),
        key_closed(*key, old(heap)@.len()),
        listings_closed(listings@, old(heap)@.len()),
    ensures
        final(heap).wf(),
        final(heap).mappings() == old(heap).mappings(),
        final(heap)@ == old(heap)@,
        seeks(
            old(heap)@,
            r,
            resolve(
                listed(old(heap)@, listings@),
                obj,
                key_id(old(heap)@, *key),
                old(heap)@.len(),
            ),
        ),
        r matches Ok(Sought::Settled(Some(v))) ==> old(heap).has(v),
        r matches Ok(Sought::Convert { holder, call }) ==> old(heap).has(holder),
{
    match heap.resolve_listed(obj, key, listings) {
        Resolution::Found(v) => Ok(Sought::Settled(Some(v))),
        Resolution::Missing => Ok(Sought::Settled(None)),
        Resolution::TooDeep => Err(Error::Internal(PARENTS_CYCLE)),
        Resolution::NotAList(holder, _) => {
            match heap.call_attr(holder, &Key::Literal(AT_LIST), Vec::new()) {
                Ok(call) => Ok(Sought::Convert { holder, call }),
                Err(e) => Err(e),
            }
        },
    }
}

/// The listings to make a lookup with again, once the conversion of
/// `holder` to a list has ended in `outcome`: where it gave a list, that
/// list stands for `holder` from now on, after the listings that were
/// there. Any other outcome is the error of the lookup.
pub fn after_listing(
    heap: &Heap,
    holder: Object,
    outcome: Result<Object>,
    listings: Vec<Listing>,
) -> (r: Result<Vec<Listing>>)
    requires
        heap.wf(),
        heap.has(holder),
        outcome matches Ok(obj) ==> heap.has(obj),
        listings_closed(listings@, heap@.len()),
    ensures
        match conversion_result(heap@, AT_LIST, Kind::List, outcome) {
            Ok(obj) => r matches Ok(ls) && ls@.drop_last() == listings@ && ls@.last().holder
                == holder && ls@.last().items@ == payload(heap@, obj)->List_0
                && listings_closed(ls@, heap@.len()),
            Err(e) => r matches Err(x) && x == e,
        },
{
    let obj = match outcome {
        Ok(obj) => obj,
        Err(e) => {
            return Err(e);
        },
    };
    match heap.list_of(&Parents::from_object(obj)) {
        Ok(items) => {
            let mut ls = listings;
            ls.push(Listing { holder, items });
            assert(ls@.drop_last() =~= listings@);
            Ok(ls)
        },
        Err(_) => Err(
            Error::TypeError(
                TypeError::ConversionReturnedBadType {
                    func: AT_LIST,
                    expected: Kind::List,
                    got: heap.kind(obj),
                },
            ),
        ),
    }
}

/// How adding a parent goes on.
#[derive(Debug)]
pub enum Added {
    /// The parent is added.
    Done,
    /// The parents are held by an object that is no list: this call of
    /// its attribute `push` adds the parent.
    Push(Invocation),
}

/// The store with `parent` as the last parent of `obj`, where the
/// parents of `obj` are held in place or by a list.
pub open spec fn with_parent(store: Seq<CellView>, obj: Object, parent: Object) -> Seq<CellView> {
    let cell = store[obj.id as int];
    match cell.parents {
        ParentsView::Empty => store.update(
            obj.id as int,
            CellView { parents: ParentsView::Builtin(seq![parent]), ..cell },
        ),
        ParentsView::Builtin(ps) => store.update(
            obj.id as int,
            CellView { parents: ParentsView::Builtin(ps.push(parent)), ..cell },
        ),
        ParentsView::Object(holder) => match payload(store, holder) {
            ValueView::List(items) => with_payload(
                store,
                holder,
                ValueView::List(items.push(parent)),
            ),
            _ => store,
        },
    }
}

/// The parents of `obj` are held by an object that is no list.
pub open spec fn held_unlisted(store: Seq<CellView>, obj: Object) -> bool {
    store[obj.id as int].parents matches ParentsView::Object(holder) && !(payload(
        store,
        holder,
    ) is List)
}

/// Adds `parent` as the last parent of `obj`, whatever holds the parents.
/// Parents held in place or by a list grow by it. Parents held by an
/// object that is no list are left to that object: the store stays as it
/// is, and the result is the call of the holder's attribute `push` with
/// `parent`, or the error of a `push` that cannot be called.
pub fn append_parent(heap: &mut Heap, obj: Object, parent: Object) -> (r: Result<Added>)
    requires
        old(heap).wf(),
        old(heap).has(obj),
        old(heap).has(parent),
    ensures
        final(heap).wf(),
        final(heap).mappings() == old(heap).mappings(),
        if held_unlisted(old(heap)@, obj) {
            let holder = old(heap)@[obj.id as int].parents->Object_0;
            &&& final(heap)@ == old(heap)@
            &&& match r {
                Ok(Added::Push(call)) => binds(
                    old(heap)@,
                    Ok::<Invocation, Error>(call),
                    holder,
                    PUSH,
                    seq![parent],
                ),
                Ok(Added::Done) => false,
                Err(e) => binds(
                    old(heap)@,
                    Err::<Invocation, Error>(e),
                    holder,
                    PUSH,
                    seq![parent],
                ),
            }
        } else {
            &&& r matches Ok(Added::Done)
            &&& final(heap)@ == with_parent(old(heap)@, obj, parent)
        },
{
    let unlisted = match heap.parents(obj) {
        Parents::Object(holder) => {
            if heap.downcast_list(*holder).is_some() {
                None
            } else {
                Some(*holder)
            }
        },
        _ => None,
    };
    match unlisted {
        Some(holder) => {
            let mut args: Vec<Object> = Vec::new();
            args.push(parent);
            assert(args@ =~= seq![parent]);
            match heap.call_attr(holder, &Key::Literal(PUSH), args) {
                Ok(call) => Ok(Added::Push(call)),
                Err(e) => Err(e),
            }
        },
        None => {
            match heap.add_parent(obj, parent) {
                Ok(_) => Ok(Added::Done),
                Err(e) => Err(e),
            }
        },
    }
}

/// What a lookup that found `found` comes to for the native function
/// that made it for `then`: the value, and a key error where there is
/// none; a new boolean that says whether there is one; or the call of the
/// value with `obj` as the receiver, and an error where there is none or
/// where it is no native function.
pub open spec fn sequel_of(
    before: &Heap,
    after: &Heap,
    obj: Object,
    key: Key,
    then: SequelView,
    found: Option<Object>,
    r: Result<Step>,
) -> bool {
    let missing = Error::KeyError(KeyError::DoesntExist { attr: key, obj });
    match then {
        SequelView::Value => after@ == before@ && match found {
            Some(v) => r matches Ok(Step::Done(o)) && o == v,
            None => r matches Err(e) && e == missing,
        },
        SequelView::Presence => makes(before, after, r, ValueView::Boolean(Boolean(found is Some))),
        SequelView::Call(args) => after@ == before@ && match found {
            Some(v) => match payload(before@, v) {
                ValueView::RustFn(f) => r matches Ok(Step::Call(inner)) && inner.func == f
                    && inner.args.this == Some(obj) && inner.args.args@ == args,
                other => r matches Err(e) && e == Error::TypeError(
                    TypeError::NotCallable { got: other.kind() },
                ),
            },
            None => r matches Err(e) && e == missing,
        },
    }
}

/// How the call of a native function goes on once the lookup that it
/// made, or asked for, has found `found`.
pub fn after_seek(heap: &mut Heap, obj: Object, key: &Key, then: Sequel, found: Option<Object>) -> (r:
    Result<Step>)
    requires
        old(heap).wf(),
        old(heap).has(obj),
        then@.within(old(heap)@.len()),
        found matches Some(v) ==> old(heap).has(v),
    ensures
        call_kept(old(heap), final(heap), r),
        sequel_of(old(heap), final(heap), obj, *key, then@, found, r),
{
    match then {
        Sequel::Value => match found {
            Some(v) => Ok(Step::Done(v)),
            None => Err(Error::KeyError(KeyError::DoesntExist { attr: *key, obj })),
        },
        Sequel::Presence => make_boolean(heap, Boolean::new(found.is_some())),
        Sequel::Call(args) => match heap.bind(obj, key, found, args) {
            Ok(inner) => Ok(Step::Call(inner)),
            Err(e) => Err(e),
        },
    }
}

/// What a native function does that looks `key` up on `obj` for `then`:
/// what the lookup comes to, where the search ends in a value or in none.
/// Where the search comes to parents held by an object that is no list,
/// it asks for the lookup to be made with that object converted, and
/// leaves the store as it is. A search that goes too deep fails.
pub open spec fn looks_up(
    before: &Heap,
    after: &Heap,
    obj: Object,
    key: Key,
    then: SequelView,
    r: Result<Step>,
) -> bool {
    match resolve(before@, obj, key_id(before@, key), before@.len()) {
        Resolution::Found(v) => sequel_of(before, after, obj, key, then, Some(v), r),
        Resolution::Missing => sequel_of(before, after, obj, key, then, None, r),
        Resolution::NotAList(_, _) => {
            &&& after@ == before@
            &&& r matches Ok(Step::Seek { obj: o, attr: k, then: t }) && o == obj && k == key
                && t@ == then
        },
        Resolution::TooDeep => {
            &&& after@ == before@
            &&& r matches Err(e) && e == Error::Internal(PARENTS_CYCLE)
        },
    }
}

/// Looks `key` up on `obj` for a native function, and goes on as `then`
/// says.
pub fn look_up(heap: &mut Heap, obj: Object, key: Key, then: Sequel) -> (r: Result<Step>)
    requires
        old(heap).wf(),
        old(heap).has(obj),
        key_closed(key, old(heap)@.len()),
        then@.within(old(heap)@.len()),
    ensures
        call_kept(old(heap), final(heap), r),
        looks_up(old(heap), final(heap), obj, key, then@, r),
{
    match heap.resolve_attr(obj, &key) {
        Resolution::Found(v) => after_seek(heap, obj, &key, then, Some(v)),
        Resolution::Missing => after_seek(heap, obj, &key, then, None),
        Resolution::NotAList(_, _) => Ok(Step::Seek { obj, attr: key, then }),
        Resolution::TooDeep => Err(Error::Internal(PARENTS_CYCLE)),
    }
}

} // verus!
