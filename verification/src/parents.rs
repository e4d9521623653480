//! The parents of an object: the prototypes that are searched, in order,
//! for an attribute that the object does not have of its own.

use vstd::prelude::*;
use crate::error::{Error, Result, TypeError};
use crate::heap::Heap;
use crate::key::{Key, KeyId, Literal};
use crate::object::{Kind, Object, Value, ValueView};
use crate::store::{
    key_id, parent_list, parents_closed, payload, reports, reports_presence, search_parents,
    with_payload, CellView, ParentsView,
};

verus! {

/// The parents of an object, in one of three states. `Empty` and `Builtin`
/// hold the list in place; `Object` holds one object whose payload is the
/// list, so that the list can be handed out as a value. The state moves
/// from `Empty` to `Builtin` to `Object` and never back.
#[derive(Debug)]
pub enum Parents {
    /// No parents.
    Empty,
    /// A list of parents, held in place.
    Builtin(Vec<Object>),
    /// An object that holds the list of parents.
    Object(Object),
}

impl View for Parents {
    type V = ParentsView;

    open spec fn view(&self) -> ParentsView {
        match self {
            Parents::Empty => ParentsView::Empty,
            Parents::Builtin(ps) => ParentsView::Builtin(ps@),
            Parents::Object(o) => ParentsView::Object(*o),
        }
    }
}

impl Parents {
    /// No parents.
    pub fn new() -> (p: Parents)
        ensures
            p@ == ParentsView::Empty,
    {
        Parents::Empty
    }

    /// The parents in `list`, in that order.
    pub fn from_list(list: Vec<Object>) -> (p: Parents)
        ensures
            p@ == ParentsView::Builtin(list@),
    {
        Parents::Builtin(list)
    }

    /// The parents that the object `obj` holds.
    pub fn from_object(obj: Object) -> (p: Parents)
        ensures
            p@ == ParentsView::Object(obj),
    {
        Parents::Object(obj)
    }

    /// Parents in the same state.
    pub fn duplicate(&self) -> (p: Parents)
        ensures
            p@ == self@,
    {
        match self {
            Parents::Empty => Parents::Empty,
            Parents::Builtin(ps) => Parents::Builtin(ps.clone()),
            Parents::Object(o) => Parents::Object(*o),
        }
    }

    /// The parents as a list, in search order. A type error where they are
    /// held by an object that holds no list.
    pub fn keys(&self, heap: &Heap) -> (r: Result<Vec<Object>>)
        requires
            heap.wf(),
            parents_closed(self@, heap@.len()),
        ensures
            match parent_list(heap@, self@) {
                Some(ps) => r matches Ok(v) && v@ == ps,
                None => r == Err::<Vec<Object>, Error>(
                    Error::TypeError(
                        TypeError::WrongType {
                            expected: Kind::List,
                            got: heap@[self@->Object_0.id as int].value.kind(),
                        },
                    ),
                ),
            },
    {
        heap.list_of(self)
    }

    /// Whether some parent, searched in order, resolves the attribute
    /// named `key`.
    pub fn has_lit(&self, heap: &Heap, key: Literal) -> (r: Result<bool>)
        requires
            heap.wf(),
            parents_closed(self@, heap@.len()),
        ensures
            reports_presence(r, search_parents(heap@, self@, KeyId::Name(key@), heap@.len())),
    {
        match heap.search_in(self, &Key::Literal(key)) {
            Ok(Some(_)) => Ok(true),
            Ok(None) => Ok(false),
            Err(e) => Err(e),
        }
    }

    /// The value of the attribute named `key` in the first parent, in
    /// order, that resolves it.
    pub fn get_lit(&self, heap: &Heap, key: Literal) -> (r: Result<Option<Object>>)
        requires
            heap.wf(),
            parents_closed(self@, heap@.len()),
        ensures
            reports(r, search_parents(heap@, self@, KeyId::Name(key@), heap@.len())),
    {
        heap.search_in(self, &Key::Literal(key))
    }

    /// Whether some parent, searched in order, resolves the attribute
    /// whose key is the object `key`.
    pub fn has_obj(&self, heap: &Heap, key: &Object) -> (r: Result<bool>)
        requires
            heap.wf(),
            parents_closed(self@, heap@.len()),
            heap.has(*key),
        ensures
            reports_presence(
                r,
                search_parents(heap@, self@, key_id(heap@, Key::Object(*key)), heap@.len()),
            ),
    {
        match heap.search_in(self, &Key::Object(*key)) {
            Ok(Some(_)) => Ok(true),
            Ok(None) => Ok(false),
            Err(e) => Err(e),
        }
    }

    /// The value of the attribute whose key is the object `key` in the
    /// first parent, in order, that resolves it.
    pub fn get_obj(&self, heap: &Heap, key: &Object) -> (r: Result<Option<Object>>)
        requires
            heap.wf(),
            parents_closed(self@, heap@.len()),
            heap.has(*key),
        ensures
            reports(
                r,
                search_parents(heap@, self@, key_id(heap@, Key::Object(*key)), heap@.len()),
            ),
    {
        heap.search_in(self, &Key::Object(*key))
    }

    /// Appends `parent` as the last parent, whatever the state. Without
    /// parents the state becomes a list in place; parents held by an
    /// object stay held by it, and the list of that object grows. A type
    /// error, and no change, where that object holds no list: adding to
    /// it takes a call, see [`crate::resume::append_parent`].
    pub fn add_parent(&mut self, heap: &mut Heap, parent: Object) -> (r: Result<()>)
        requires
            old(heap).wf(),
            parents_closed(old(self)@, old(heap)@.len()),
            old(heap).has(parent),
        ensures
            final(heap).wf(),
            final(heap).mappings() == old(heap).mappings(),
            final(heap)@.len() == old(heap)@.len(),
            parents_closed(final(self)@, final(heap)@.len()),
            match old(self)@ {
                ParentsView::Empty => r == Ok::<(), Error>(()) && final(self)@
                    == ParentsView::Builtin(seq![parent]) && final(heap)@ == old(heap)@,
                ParentsView::Builtin(ps) => r == Ok::<(), Error>(()) && final(self)@
                    == ParentsView::Builtin(ps.push(parent)) && final(heap)@ == old(heap)@,
                ParentsView::Object(holder) => final(self)@ == old(self)@ && match payload(
                    old(heap)@,
                    holder,
                ) {
                    ValueView::List(items) => r == Ok::<(), Error>(()) && final(heap)@
                        == with_payload(old(heap)@, holder, ValueView::List(items.push(parent))),
                    other => r == Err::<(), Error>(
                        Error::TypeError(
                            TypeError::WrongType { expected: Kind::List, got: other.kind() },
                        ),
                    ) && final(heap)@ == old(heap)@,
                },
            },
    {
        let mut held = Parents::Empty;
        core::mem::swap(self, &mut held);
        match held {
            Parents::Empty => {
                let mut list: Vec<Object> = Vec::new();
                list.push(parent);
                assert(list@ =~= seq![parent]);
                *self = Parents::Builtin(list);
                Ok(())
            },
            Parents::Builtin(mut list) => {
                let ghost before = list@;
                assert(old(self)@->Builtin_0 == before);
                list.push(parent);
                assert forall|i: int| 0 <= i < list@.len() implies (#[trigger] list@[i]).id
                    < heap@.len() by {
                    if i < before.len() {
                        assert(list@[i] == before[i]);
                    }
                }
                *self = Parents::Builtin(list);
                Ok(())
            },
            Parents::Object(holder) => {
                *self = Parents::Object(holder);
                heap.list_push(holder, parent)
            },
        }
    }

    /// The object that holds the list of parents. Parents that are held in
    /// place move into a new list object first, and are held by it from
    /// then on; the list they stand for stays the same.
    pub fn to_object(&mut self, heap: &mut Heap) -> (obj: Object)
        requires
            old(heap).wf(),
            parents_closed(old(self)@, old(heap)@.len()),
        ensures
            final(heap).wf(),
            final(heap).mappings() == old(heap).mappings(),
            final(heap).has(obj),
            final(self)@ == ParentsView::Object(obj),
            match old(self)@ {
                ParentsView::Object(holder) => obj == holder && final(heap)@ == old(heap)@,
                held => obj.id == old(heap)@.len() && final(heap)@ == old(heap)@.push(
                    CellView {
                        value: ValueView::List(parent_list(old(heap)@, held)->0),
                        attrs: Map::empty(),
                        parents: old(heap).mappings().parents_for(Kind::List),
                    },
                ),
            },
            old(self)@ !is Object ==> parent_list(final(heap)@, final(self)@) == parent_list(
                old(heap)@,
                old(self)@,
            ),
    {
        let mut held = Parents::Empty;
        core::mem::swap(self, &mut held);
        match held {
            Parents::Empty => {
                let list: Vec<Object> = Vec::new();
                assert(list@ =~= Seq::<Object>::empty());
                let obj = heap.new_object(Value::List(list));
                *self = Parents::Object(obj);
                obj
            },
            Parents::Builtin(list) => {
                let obj = heap.new_object(Value::List(list));
                *self = Parents::Object(obj);
                obj
            },
            Parents::Object(holder) => {
                *self = Parents::Object(holder);
                holder
            },
        }
    }
}

} // verus!

