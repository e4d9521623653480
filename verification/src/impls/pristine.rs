//! The native functions that every object has.

use vstd::prelude::*;
use crate::args::Args;
use crate::attrs::misc;
use crate::boolean::Boolean;
use crate::error::{Error, KeyError, Result};
use crate::heap::Heap;
use crate::key::{distinct_keys, key_set, Key, KeyId, StoredKey};
use crate::number::{decimal, wrap, Inner, Number};
use crate::object::{Kind, Object, Value, ValueView};
use crate::resume::{look_up, looks_up};
use crate::step::{
    args_ready, call_kept, call_ready, fails, make_number, makes, no_argument, no_receiver,
    Sequel, SequelView, Step,
};
use crate::store::{all_keys, key_id, key_within, payload, CellView};
use crate::step::{asks_conversion, convertible};
use crate::text::{chars_of, string_of};

verus! {

/// The root of all objects: the type of an object without a payload.
#[derive(Debug, Clone, Copy, PartialEq, Eq, PartialOrd, Ord, Structural)]
pub struct Pristine;

impl Default for Pristine {
    fn default() -> (p: Pristine) {
        Pristine
    }
}

/// The number that holds an identity.
pub open spec fn id_number(obj: Object) -> Number {
    Number(Inner::Integer(wrap(obj.id as int)))
}

/// The text that shows an object of type `kind` with identity `id` to a
/// developer: the name of the type and the identity in decimal, as in
/// `<Number:12>`.
pub open spec fn inspect_text(kind: Kind, id: usize) -> Seq<char> {
    seq!['<'] + kind.spec_name() + seq![':'] + decimal(wrap(id as int)) + seq!['>']
}

/// What a function does with a receiver and its first argument: it fails
/// without a receiver and without the argument, and else does what
/// `next` says for the two.
pub open spec fn on_attribute(
    before: &Heap,
    after: &Heap,
    args: &Args,
    r: Result<Step>,
    next: spec_fn(Object, Object) -> bool,
) -> bool {
    match args.this {
        None => fails(before, after, r, no_receiver()),
        Some(this) => if args.args@.len() == 0 {
            fails(before, after, r, no_argument())
        } else {
            next(this, args.args@[0])
        },
    }
}

/// What reading an attribute does: the result is the value that the key
/// resolves to on the receiver, and the store stays as it is. It is a key
/// error that nothing resolves the key.
pub open spec fn get_attr_spec(before: &Heap, after: &Heap, args: &Args, r: Result<Step>) -> bool {
    on_attribute(
        before,
        after,
        args,
        r,
        |this: Object, attr: Object|
            looks_up(before, after, this, Key::Object(attr), SequelView::Value, r),
    )
}

/// The receiver and the first argument of `args`.
fn this_and_attribute(args: &Args) -> (r: Result<(Object, Object)>)
    ensures
        match args.this {
            None => r matches Err(e) && e == no_receiver(),
            Some(this) => if args.args@.len() == 0 {
                r matches Err(e) && e == no_argument()
            } else {
                r == Ok::<(Object, Object), Error>((this, args.args@[0]))
            },
        },
{
    let this = match args.this() {
        Ok(o) => o,
        Err(e) => {
            return Err(e);
        },
    };
    match args.arg(0) {
        Ok(attr) => Ok((this, attr)),
        Err(e) => Err(e),
    }
}

/// What [`__id__`] does.
pub open spec fn id_spec(before: &Heap, after: &Heap, args: &Args, r: Result<Step>) -> bool {
    &&& match args.this {
        None => fails(before, after, r, no_receiver()),
        Some(this) => makes(before, after, r, ValueView::Number(id_number(this))),
    }
}

/// The identity of the receiver, as a number.
pub fn __id__(heap: &mut Heap, args: &Args) -> (r: Result<Step>)
    requires
        args_ready(old(heap), args),
    ensures
        call_kept(old(heap), final(heap), r),
        id_spec(old(heap), final(heap), args, r),
{
    match args.this() {
        Ok(this) => make_number(heap, Number::from(this.id())),
        Err(e) => Err(e),
    }
}

/// What [`__call_attr__`] does.
pub open spec fn call_attr_spec(before: &Heap, after: &Heap, args: &Args, r: Result<Step>) -> bool {
    &&& after@ == before@
    &&& on_attribute(
        before,
        after,
        args,
        r,
        |this: Object, attr: Object|
            looks_up(
                before,
                after,
                this,
                Key::Object(attr),
                SequelView::Call(args.args@.skip(1)),
                r,
            ),
    )
}

/// Calls the attribute of the receiver whose key is the first argument,
/// with the arguments after it: the result is that of the call that the
/// attribute resolves to, with the receiver bound.
pub fn __call_attr__(heap: &mut Heap, args: &Args) -> (r: Result<Step>)
    requires
        args_ready(old(heap), args),
    ensures
        call_kept(old(heap), final(heap), r),
        call_attr_spec(old(heap), final(heap), args, r),
{
    let (this, attr) = match this_and_attribute(args) {
        Ok(pair) => pair,
        Err(e) => {
            return Err(e);
        },
    };
    let rest = match args.args_from(1) {
        Ok(rest) => rest,
        Err(e) => {
            return Err(e);
        },
    };
    look_up(heap, this, Key::Object(attr), Sequel::Call(rest.args))
}

/// The value of the attribute of the receiver whose key is the first
/// argument.
pub fn __get_attr__(heap: &mut Heap, args: &Args) -> (r: Result<Step>)
    requires
        args_ready(old(heap), args),
    ensures
        call_kept(old(heap), final(heap), r),
        get_attr_spec(old(heap), final(heap), args, r),
{
    let (this, attr) = match this_and_attribute(args) {
        Ok(pair) => pair,
        Err(e) => {
            return Err(e);
        },
    };
    look_up(heap, this, Key::Object(attr), Sequel::Value)
}

/// What [`__set_attr__`] does.
pub open spec fn set_attr_spec(before: &Heap, after: &Heap, args: &Args, r: Result<Step>) -> bool {
    &&& on_attribute(
        before,
        after,
        args,
        r,
        |this: Object, attr: Object|
            if args.args@.len() == 1 {
                fails(
                    before,
                    after,
                    r,
                    Error::KeyError(KeyError::OutOfBounds { idx: 1, len: 1 }),
                )
            } else {
                r matches Ok(Step::Done(o)) && o == args.args@[1] && after@ == before@.update(
                    this.id as int,
                    CellView {
                        attrs: before@[this.id as int].attrs.insert(
                            key_id(before@, Key::Object(attr)),
                            args.args@[1],
                        ),
                        ..before@[this.id as int]
                    },
                )
            },
    )
}

/// Stores the second argument under the key that the first argument is,
/// in the own table of the receiver, and hands the second argument back.
pub fn __set_attr__(heap: &mut Heap, args: &Args) -> (r: Result<Step>)
    requires
        args_ready(old(heap), args),
    ensures
        call_kept(old(heap), final(heap), r),
        set_attr_spec(old(heap), final(heap), args, r),
{
    let (this, attr) = match this_and_attribute(args) {
        Ok(pair) => pair,
        Err(e) => {
            return Err(e);
        },
    };
    let val = match args.arg(1) {
        Ok(o) => o,
        Err(e) => {
            return Err(e);
        },
    };
    heap.set_attr(this, &Key::Object(attr), val);
    Ok(Step::Done(val))
}

/// What [`__has_attr__`] does.
pub open spec fn has_attr_spec(before: &Heap, after: &Heap, args: &Args, r: Result<Step>) -> bool {
    on_attribute(
        before,
        after,
        args,
        r,
        |this: Object, attr: Object|
            looks_up(before, after, this, Key::Object(attr), SequelView::Presence, r),
    )
}

/// Whether the receiver resolves the attribute whose key is the first
/// argument, as a boolean.
pub fn __has_attr__(heap: &mut Heap, args: &Args) -> (r: Result<Step>)
    requires
        args_ready(old(heap), args),
    ensures
        call_kept(old(heap), final(heap), r),
        has_attr_spec(old(heap), final(heap), args, r),
{
    let (this, attr) = match this_and_attribute(args) {
        Ok(pair) => pair,
        Err(e) => {
            return Err(e);
        },
    };
    look_up(heap, this, Key::Object(attr), Sequel::Presence)
}

/// What [`__del_attr__`] does.
pub open spec fn del_attr_spec(before: &Heap, after: &Heap, args: &Args, r: Result<Step>) -> bool {
    &&& on_attribute(
        before,
        after,
        args,
        r,
        |this: Object, attr: Object|
            {
                let key = key_id(before@, Key::Object(attr));
                let own = before@[this.id as int].attrs;
                if own.dom().contains(key) {
                    r matches Ok(Step::Done(o)) && o == own[key] && after@ == before@.update(
                        this.id as int,
                        CellView { attrs: own.remove(key), ..before@[this.id as int] },
                    )
                } else {
                    fails(
                        before,
                        after,
                        r,
                        Error::KeyError(
                            KeyError::DoesntExist { attr: Key::Object(attr), obj: this },
                        ),
                    )
                }
            },
    )
}

/// Takes the attribute whose key is the first argument out of the own
/// table of the receiver and hands back its value. It is a key error
/// that the receiver has no such attribute of its own.
pub fn __del_attr__(heap: &mut Heap, args: &Args) -> (r: Result<Step>)
    requires
        args_ready(old(heap), args),
    ensures
        call_kept(old(heap), final(heap), r),
        del_attr_spec(old(heap), final(heap), args, r),
{
    let (this, attr) = match this_and_attribute(args) {
        Ok(pair) => pair,
        Err(e) => {
            return Err(e);
        },
    };
    let ghost before = heap@;
    match heap.del_attr(this, &Key::Object(attr)) {
        Ok(v) => Ok(Step::Done(v)),
        Err(e) => {
            proof {
                let key = key_id(before, Key::Object(attr));
                assert(before[this.id as int].attrs.remove(key) =~= before[this.id as int].attrs);
                assert(heap@ =~= before);
            }
            Err(e)
        },
    }
}

/// The value of the attribute of the receiver whose key is the first
/// argument, as the `.` operator reads it.
pub fn dot_get_attr(heap: &mut Heap, args: &Args) -> (r: Result<Step>)
    requires
        args_ready(old(heap), args),
    ensures
        call_kept(old(heap), final(heap), r),
        get_attr_spec(old(heap), final(heap), args, r),
{
    __get_attr__(heap, args)
}

/// The key that an item of a list of keys stands for. A key that is a
/// name is listed as a text object made for the list; a key that is an
/// object is listed as that object.
pub open spec fn item_key(made_from: nat, store: Seq<CellView>, item: Object) -> KeyId {
    if item.id >= made_from {
        KeyId::Name(payload(store, item)->Text_0)
    } else {
        KeyId::Identity(item.id as int)
    }
}

/// The call is complete, and its result is a new list object whose items
/// stand for the keys of `keys`, each for one and no two for the same.
/// The cells that were there are as they were; the new ones are the list
/// and, before it, a text object for each key that is a name.
pub open spec fn lists_keys(before: &Heap, after: &Heap, r: Result<Step>, keys: Set<KeyId>) -> bool {
    &&& r matches Ok(Step::Done(list))
    &&& after@.len() > before@.len()
    &&& after@.subrange(0, before@.len() as int) == before@
    &&& r->Ok_0->Done_0.id == after@.len() - 1
    &&& after@.last().attrs == Map::<KeyId, Object>::empty()
    &&& after@.last().parents == before.mappings().parents_for(Kind::List)
    &&& after@.last().value matches ValueView::List(items)
    &&& {
        let items = after@.last().value->List_0;
        let made_from = before@.len();
        &&& forall|i: int| 0 <= i < items.len() ==> (#[trigger] items[i]).id < after@.len() - 1
        &&& forall|i: int|
            0 <= i < items.len() && (#[trigger] items[i]).id >= made_from ==> payload(
                after@,
                items[i],
            ) is Text
        &&& forall|c: int|
            made_from <= c < after@.len() - 1 ==> (#[trigger] after@[c]).value is Text
                && after@[c].attrs == Map::<KeyId, Object>::empty() && after@[c].parents
                == before.mappings().parents_for(Kind::Text)
        &&& forall|i: int, j: int|
            0 <= i < j < items.len() ==> item_key(made_from, after@, #[trigger] items[i])
                != item_key(made_from, after@, #[trigger] items[j])
        &&& forall|k: KeyId|
            keys.contains(k) <==> exists|i: int|
                0 <= i < items.len() && item_key(made_from, after@, #[trigger] items[i]) == k
    }
}

/// What [`__keys__`] does.
pub open spec fn keys_spec(before: &Heap, after: &Heap, args: &Args, r: Result<Step>) -> bool {
    &&& match args.this {
        None => fails(before, after, r, no_receiver()),
        Some(this) => if args.args@.len() == 0 {
            lists_keys(before, after, r, before@[this.id as int].attrs.dom())
        } else {
            match payload(before@, args.args@[0]) {
                ValueView::Boolean(wide) => lists_keys(
                    before,
                    after,
                    r,
                    if wide.0 {
                        all_keys(before@, this, before@.len())
                    } else {
                        before@[this.id as int].attrs.dom()
                    },
                ),
                _ => if convertible(before@, args.args@[0], "@bool"@) {
                    asks_conversion(before, after, r, 0, "@bool"@, Kind::Boolean, false)
                } else {
                    lists_keys(before, after, r, before@[this.id as int].attrs.dom())
                },
            }
        },
    }
}

/// The keys of the receiver, as a list: those of its own table, and with
/// a true first argument those of its parents as well. Without an
/// argument the keys of its own table are listed; so they are for an
/// argument that holds no boolean and cannot be converted to one. An
/// argument that can is to be converted through `@bool`, and where that
/// fails the call is made again without it.
pub fn __keys__(heap: &mut Heap, args: &Args) -> (r: Result<Step>)
    requires
        args_ready(old(heap), args),
    ensures
        call_kept(old(heap), final(heap), r),
        keys_spec(old(heap), final(heap), args, r),
{
    let this = match args.this() {
        Ok(o) => o,
        Err(e) => {
            return Err(e);
        },
    };
    let include_parents = if args.len() == 0 {
        false
    } else {
        match heap.downcast_boolean(args.args[0]) {
            Some(b) => b.into_inner(),
            None => match heap.call_attr(args.args[0], &Key::Literal("@bool"), Vec::new()) {
                Ok(_) => {
                    return Ok(
                        Step::Convert {
                            index: 0,
                            key: "@bool",
                            to: Kind::Boolean,
                            required: false,
                        },
                    );
                },
                Err(_) => false,
            },
        }
    };
    let keys = heap.mapping_keys(this, include_parents);
    let ghost before = heap@;
    let ghost made_from = before.len();
    let mut items: Vec<Object> = Vec::new();
    let mut i: usize = 0;
    assert(heap@.subrange(0, made_from as int) =~= before);
    while i < keys.len()
        invariant
            heap.wf(),
            heap.mappings() == old(heap).mappings(),
            made_from == before.len(),
            heap@.len() >= made_from,
            heap@.subrange(0, made_from as int) == before,
            i <= keys.len(),
            items.len() == i,
            distinct_keys(keys@),
            forall|j: int| 0 <= j < keys.len() ==> key_within((#[trigger] keys[j])@, made_from),
            forall|j: int| 0 <= j < i ==> (#[trigger] items[j]).id < heap@.len(),
            forall|j: int|
                0 <= j < i && (#[trigger] items[j]).id >= made_from ==> payload(heap@, items[j])
                    is Text,
            forall|j: int|
                0 <= j < i ==> item_key(made_from, heap@, #[trigger] items[j]) == keys[j]@,
            forall|c: int|
                made_from <= c < heap@.len() ==> (#[trigger] heap@[c]).value is Text && heap@[c].attrs
                    == Map::<KeyId, Object>::empty() && heap@[c].parents
                    == heap.mappings().parents_for(Kind::Text),
        decreases keys.len() - i,
    {
        let ghost store = heap@;
        let ghost listed = items@;
        match &keys[i] {
            StoredKey::Name(s) => {
                let o = heap.new_object(Value::Text(s.clone()));
                items.push(o);
            },
            StoredKey::Identity(o) => {
                assert(key_within(keys[i as int]@, made_from));
                items.push(*o);
            },
        }
        proof {
            assert(heap@.subrange(0, made_from as int) =~= before);
            assert forall|c: int| made_from <= c < heap@.len() implies (#[trigger] heap@[c]).value
                is Text && heap@[c].attrs == Map::<KeyId, Object>::empty() && heap@[c].parents
                == heap.mappings().parents_for(Kind::Text) by {
                if c < store.len() {
                    assert(heap@[c] == store[c]);
                }
            }
            assert forall|j: int| 0 <= j < i + 1 implies (#[trigger] items[j]).id < heap@.len()
                && (items[j].id >= made_from ==> payload(heap@, items[j]) is Text) && item_key(
                made_from,
                heap@,
                items[j],
            ) == keys[j]@ by {
                if j < i {
                    assert(items[j] == listed[j]);
                    assert(heap@[items[j].id as int] == store[items[j].id as int]);
                }
            }
        }
        i += 1;
    }
    let ghost store = heap@;
    let ghost wanted = key_set(keys@);
    let list = heap.new_object(Value::List(items));
    proof {
        assert(heap@.subrange(0, made_from as int) =~= before);
        assert(heap@.last().value == ValueView::List(items@));
        assert forall|c: int| made_from <= c < heap@.len() - 1 implies (#[trigger] heap@[c]).value
            is Text && heap@[c].attrs == Map::<KeyId, Object>::empty() && heap@[c].parents
            == heap.mappings().parents_for(Kind::Text) by {
            assert(heap@[c] == store[c]);
        }
        assert forall|a: int, b: int| 0 <= a < b < items.len() implies item_key(
            made_from,
            heap@,
            #[trigger] items[a],
        ) != item_key(made_from, heap@, #[trigger] items[b]) by {
            assert(heap@[items[a].id as int] == store[items[a].id as int]);
            assert(heap@[items[b].id as int] == store[items[b].id as int]);
            assert(keys[a]@ != keys[b]@);
        }
        assert forall|j: int|
            0 <= j < items.len() && (#[trigger] items[j]).id >= made_from implies payload(
            heap@,
            items[j],
        ) is Text by {
            assert(heap@[items[j].id as int] == store[items[j].id as int]);
        }
        assert forall|k: KeyId|
            wanted.contains(k) <==> exists|j: int|
                0 <= j < items.len() && item_key(made_from, heap@, #[trigger] items[j]) == k by {
            if wanted.contains(k) {
                let w = choose|w: int| 0 <= w < keys.len() && (#[trigger] keys[w])@ == k;
                assert(heap@[items[w].id as int] == store[items[w].id as int]);
                assert(item_key(made_from, heap@, items[w]) == k);
            }
            if exists|j: int|
                0 <= j < items.len() && item_key(made_from, heap@, #[trigger] items[j]) == k {
                let j = choose|j: int|
                    0 <= j < items.len() && item_key(made_from, heap@, #[trigger] items[j]) == k;
                assert(heap@[items[j].id as int] == store[items[j].id as int]);
                assert(keys[j]@ == k);
            }
        }
    }
    Ok(Step::Done(list))
}

impl Pristine {
    /// The text that shows the receiver to a developer: the name of its
    /// type and its identity.
    #[allow(non_snake_case)]
    pub fn qs___inspect__(heap: &mut Heap, this: Object, args: &Args) -> (r: Result<Step>)
        requires
            call_ready(old(heap), this, args),
        ensures
            call_kept(old(heap), final(heap), r),
            makes(
                old(heap),
                final(heap),
                r,
                ValueView::Text(inspect_text(payload(old(heap)@, this).kind(), this.id)),
            ),
    {
        let mut text: Vec<char> = Vec::new();
        text.push('<');
        let name = chars_of(heap.kind(this).name());
        let mut i: usize = 0;
        while i < name.len()
            invariant
                i <= name.len(),
                text@ == seq!['<'] + name@.take(i as int),
            decreases name.len() - i,
        {
            text.push(name[i]);
            assert(name@.take(i as int + 1) =~= name@.take(i as int).push(name@[i as int]));
            assert(text@ =~= seq!['<'] + name@.take(i as int + 1));
            i += 1;
        }
        assert(name@.take(name.len() as int) =~= name@);
        text.push(':');
        let id = match Number::from(this.id()).to_text() {
            Some(s) => chars_of(s.as_str()),
            None => Vec::new(),
        };
        let ghost head = text@;
        let mut j: usize = 0;
        while j < id.len()
            invariant
                j <= id.len(),
                text@ == head + id@.take(j as int),
            decreases id.len() - j,
        {
            text.push(id[j]);
            assert(id@.take(j as int + 1) =~= id@.take(j as int).push(id@[j as int]));
            assert(text@ =~= head + id@.take(j as int + 1));
            j += 1;
        }
        assert(id@.take(id.len() as int) =~= id@);
        text.push('>');
        assert(text@ =~= inspect_text(payload(heap@, this).kind(), this.id));
        let obj = heap.new_object(Value::Text(string_of(&text)));
        Ok(Step::Done(obj))
    }
}

impl misc::Hash for Pristine {
    /// The hash of an object without a payload: its identity, as a
    /// number.
    fn call(heap: &mut Heap, this: Object, args: &Args) -> (r: Result<Step>)
        ensures
            makes(old(heap), final(heap), r, ValueView::Number(id_number(this))),
    {
        make_number(heap, Number::from(this.id()))
    }
}

} // verus!
