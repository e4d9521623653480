//! The store: every cell of the object graph, and the operations on cells
//! that the rest of the runtime is built from.

use vstd::prelude::*;
use crate::args::{Args, Invocation};
use crate::attributes::Attributes;
use crate::boolean::Boolean;
use crate::error::{Error, KeyError, Result, TypeError};
use crate::key::{add_key, distinct_keys, key_set, Key, KeyId, Literal, StoredKey};
use crate::number::Number;
use crate::object::{Kind, Object, Value, ValueView};
use crate::parents::Parents;
use crate::rustfn::RustFn;
use crate::store::{
    all_keys, cell_closed, closed, fails_with, key_closed, key_id, key_within, keys_of_list,
    lemma_all_keys_within, parent_list, parents_closed, reported, reports, reports_presence,
    resolve, search, search_parents, value_closed, with_payload, CellView, ParentsView,
    Resolution,
};

verus! {

/// The prototype object of each native type, where one is registered.
#[derive(Debug, Clone, Copy, PartialEq, Eq, Structural)]
pub struct Mappings {
    pub pristine: Option<Object>,
    pub class: Option<Object>,
    pub boolean: Option<Object>,
    pub number: Option<Object>,
    pub text: Option<Object>,
    pub list: Option<Object>,
    pub rustfn: Option<Object>,
}

impl Mappings {
    /// The prototype object registered for `kind`.
    pub open spec fn spec_of(self, kind: Kind) -> Option<Object> {
        match kind {
            Kind::Pristine => self.pristine,
            Kind::Class => self.class,
            Kind::Boolean => self.boolean,
            Kind::Number => self.number,
            Kind::Text => self.text,
            Kind::List => self.list,
            Kind::RustFn => self.rustfn,
        }
    }

    /// The prototype object registered for `kind`.
    #[verifier::when_used_as_spec(spec_of)]
    pub fn of(self, kind: Kind) -> (m: Option<Object>)
        ensures
            m == self.spec_of(kind),
    {
        match kind {
            Kind::Pristine => self.pristine,
            Kind::Class => self.class,
            Kind::Boolean => self.boolean,
            Kind::Number => self.number,
            Kind::Text => self.text,
            Kind::List => self.list,
            Kind::RustFn => self.rustfn,
        }
    }

    /// The registry with `obj` registered for `kind`.
    pub open spec fn spec_with(self, kind: Kind, obj: Object) -> Mappings {
        match kind {
            Kind::Pristine => Mappings { pristine: Some(obj), ..self },
            Kind::Class => Mappings { class: Some(obj), ..self },
            Kind::Boolean => Mappings { boolean: Some(obj), ..self },
            Kind::Number => Mappings { number: Some(obj), ..self },
            Kind::Text => Mappings { text: Some(obj), ..self },
            Kind::List => Mappings { list: Some(obj), ..self },
            Kind::RustFn => Mappings { rustfn: Some(obj), ..self },
        }
    }

    /// Every registered object names one of `len` cells.
    pub open spec fn within(self, len: nat) -> bool {
        forall|kind: Kind| (#[trigger] self.spec_of(kind)) matches Some(o) ==> o.id < len
    }

    /// The parents that a new object of `kind` gets: the prototype of the
    /// kind, where one is registered.
    pub open spec fn parents_for(self, kind: Kind) -> ParentsView {
        match self.spec_of(kind) {
            Some(m) => ParentsView::Builtin(seq![m]),
            None => ParentsView::Empty,
        }
    }
}

/// One cell of the store.
#[derive(Debug)]
struct Cell {
    value: Value,
    attrs: Attributes,
    parents: Parents,
}

impl Cell {
    spec fn view(&self) -> CellView {
        CellView { value: self.value@, attrs: self.attrs@, parents: self.parents@ }
    }
}

/// The store of all cells. An [`Object`] is a handle into it.
#[derive(Debug)]
pub struct Heap {
    cells: Vec<Cell>,
    mappings: Mappings,
}

impl View for Heap {
    type V = Seq<CellView>;

    closed spec fn view(&self) -> Seq<CellView> {
        Seq::new(self.cells@.len(), |i: int| self.cells@[i].view())
    }
}

/// A cell whose handles name cells of a store names cells of every longer
/// store.
pub proof fn lemma_cell_closed_grows(c: CellView, len: nat, more: nat)
    requires
        cell_closed(c, len),
        len <= more,
    ensures
        cell_closed(c, more),
{
}

/// The list that an object which holds parents, and is no list itself,
/// was converted to.
#[derive(Debug)]
pub struct Listing {
    /// The object that holds the parents.
    pub holder: Object,
    /// The list that it stands for.
    pub items: Vec<Object>,
}

/// The listing names cells of a store of `len` cells only.
pub open spec fn listing_closed(l: Listing, len: nat) -> bool {
    &&& l.holder.id < len
    &&& forall|i: int| 0 <= i < l.items@.len() ==> (#[trigger] l.items@[i]).id < len
}

/// Every listing names cells of a store of `len` cells only.
pub open spec fn listings_closed(ls: Seq<Listing>, len: nat) -> bool {
    forall|i: int| 0 <= i < ls.len() ==> listing_closed(#[trigger] ls[i], len)
}

/// The store in which each holder of `ls` holds the list given for it,
/// the first listing put in first.
pub open spec fn listed(store: Seq<CellView>, ls: Seq<Listing>) -> Seq<CellView>
    decreases ls.len(),
{
    if ls.len() == 0 {
        store
    } else {
        listed(
            with_payload(store, ls[0].holder, ValueView::List(ls[0].items@)),
            ls.drop_first(),
        )
    }
}

impl Heap {
    /// The store is well formed: every handle in it names one of its
    /// cells, and no attribute table holds a key twice.
    pub closed spec fn wf(&self) -> bool {
        &&& forall|i: int| 0 <= i < self.cells@.len() ==> (#[trigger] self.cells@[i]).attrs.wf()
        &&& closed(self@)
        &&& self.mappings.within(self.cells@.len())
    }

    /// The registered prototype objects.
    pub closed spec fn mappings(&self) -> Mappings {
        self.mappings
    }

    /// `obj` names a cell of the store.
    pub open spec fn has(&self, obj: Object) -> bool {
        obj.id < self@.len()
    }

    /// A store without cells.
    pub fn new() -> (h: Heap)
        ensures
            h.wf(),
            h@ == Seq::<CellView>::empty(),
            h.mappings() == (Mappings {
                pristine: None,
                class: None,
                boolean: None,
                number: None,
                text: None,
                list: None,
                rustfn: None,
            }),
    {
        let h = Heap {
            cells: Vec::new(),
            mappings: Mappings {
                pristine: None,
                class: None,
                boolean: None,
                number: None,
                text: None,
                list: None,
                rustfn: None,
            },
        };
        assert(h@ =~= Seq::<CellView>::empty());
        h
    }

    /// How many cells the store has.
    pub fn len(&self) -> (n: usize)
        ensures
            n == self@.len(),
    {
        self.cells.len()
    }

    /// Whether `obj` names a cell of the store.
    pub fn contains(&self, obj: Object) -> (b: bool)
        ensures
            b == self.has(obj),
    {
        obj.id < self.cells.len()
    }

    /// The prototype object registered for `kind`.
    pub fn mapping(&self, kind: Kind) -> (m: Option<Object>)
        requires
            self.wf(),
        ensures
            m == self.mappings().spec_of(kind),
            m matches Some(o) ==> self.has(o),
    {
        self.mappings.of(kind)
    }

    /// Registers `obj` as the prototype object of `kind`.
    pub fn set_mapping(&mut self, kind: Kind, obj: Object)
        requires
            old(self).wf(),
            old(self).has(obj),
        ensures
            final(self).wf(),
            final(self)@ == old(self)@,
            final(self).mappings() == old(self).mappings().spec_with(kind, obj),
    {
        match kind {
            Kind::Pristine => {
                self.mappings.pristine = Some(obj);
            },
            Kind::Class => {
                self.mappings.class = Some(obj);
            },
            Kind::Boolean => {
                self.mappings.boolean = Some(obj);
            },
            Kind::Number => {
                self.mappings.number = Some(obj);
            },
            Kind::Text => {
                self.mappings.text = Some(obj);
            },
            Kind::List => {
                self.mappings.list = Some(obj);
            },
            Kind::RustFn => {
                self.mappings.rustfn = Some(obj);
            },
        }
        assert(self@ =~= old(self)@);
        assert forall|k: Kind| (#[trigger] self.mappings.spec_of(k)) is Some implies self.mappings.spec_of(
            k,
        )->0.id < self.cells@.len() by {
            if k != kind {
                assert(self.mappings.spec_of(k) == old(self).mappings.spec_of(k));
            }
        }
    }

    /// Makes a new cell with this payload and these parents and no
    /// attributes, and hands out its handle.
    pub fn allocate(&mut self, value: Value, parents: Parents) -> (obj: Object)
        requires
            old(self).wf(),
            value_closed(value@, old(self)@.len()),
            parents_closed(parents@, old(self)@.len()),
        ensures
            final(self).wf(),
            obj.id == old(self)@.len(),
            final(self)@ == old(self)@.push(
                CellView { value: value@, attrs: Map::empty(), parents: parents@ },
            ),
            final(self).mappings() == old(self).mappings(),
    {
        let id = self.cells.len();
        let ghost cell_view = CellView { value: value@, attrs: Map::empty(), parents: parents@ };
        let cell = Cell { value, attrs: Attributes::new(), parents };
        self.cells.push(cell);
        proof {
            assert(self@ =~= old(self)@.push(cell_view));
            assert forall|i: int| 0 <= i < self@.len() implies cell_closed(
                #[trigger] self@[i],
                self@.len(),
            ) by {
                if i < old(self)@.len() {
                    assert(self@[i] == old(self)@[i]);
                    lemma_cell_closed_grows(old(self)@[i], old(self)@.len(), self@.len());
                } else {
                    lemma_cell_closed_grows(cell_view, old(self)@.len(), self@.len());
                }
            }
        }
        Object { id }
    }

    /// Makes a new cell with this payload, whose only parent is the
    /// prototype object registered for the type of the payload.
    pub fn new_object(&mut self, value: Value) -> (obj: Object)
        requires
            old(self).wf(),
            value_closed(value@, old(self)@.len()),
        ensures
            final(self).wf(),
            obj.id == old(self)@.len(),
            final(self)@ == old(self)@.push(
                CellView {
                    value: value@,
                    attrs: Map::empty(),
                    parents: old(self).mappings().parents_for(value@.kind()),
                },
            ),
            final(self).mappings() == old(self).mappings(),
    {
        let parents = match self.mappings.of(value.kind()) {
            Some(m) => {
                let mut list: Vec<Object> = Vec::new();
                list.push(m);
                assert(list@ =~= seq![m]);
                Parents::Builtin(list)
            },
            None => Parents::Empty,
        };
        self.allocate(value, parents)
    }

    /// Makes a new cell with this payload and this list of parents.
    pub fn new_with_parent(&mut self, value: Value, parents: Vec<Object>) -> (obj: Object)
        requires
            old(self).wf(),
            value_closed(value@, old(self)@.len()),
            forall|i: int| 0 <= i < parents.len() ==> old(self).has(#[trigger] parents[i]),
        ensures
            final(self).wf(),
            obj.id == old(self)@.len(),
            final(self)@ == old(self)@.push(
                CellView {
                    value: value@,
                    attrs: Map::empty(),
                    parents: ParentsView::Builtin(parents@),
                },
            ),
            final(self).mappings() == old(self).mappings(),
    {
        self.allocate(value, Parents::Builtin(parents))
    }

    /// The payload of `obj`.
    pub fn value(&self, obj: Object) -> (v: &Value)
        requires
            self.has(obj),
        ensures
            v@ == self@[obj.id as int].value,
    {
        &self.cells[obj.id].value
    }

    /// The native type of the payload of `obj`.
    pub fn kind(&self, obj: Object) -> (k: Kind)
        requires
            self.has(obj),
        ensures
            k == self@[obj.id as int].value.kind(),
    {
        self.cells[obj.id].value.kind()
    }

    /// Whether the payload of `obj` is of type `kind`.
    pub fn is_a(&self, obj: Object, kind: Kind) -> (b: bool)
        requires
            self.has(obj),
        ensures
            b == (self@[obj.id as int].value.kind() == kind),
    {
        self.cells[obj.id].value.kind() == kind
    }

    /// The boolean that `obj` holds, if it holds one.
    pub fn downcast_boolean(&self, obj: Object) -> (r: Option<Boolean>)
        requires
            self.has(obj),
        ensures
            r == match self@[obj.id as int].value {
                ValueView::Boolean(b) => Some(b),
                _ => None::<Boolean>,
            },
    {
        match &self.cells[obj.id].value {
            Value::Boolean(b) => Some(*b),
            _ => None,
        }
    }

    /// The boolean that `obj` holds; a type error if it holds something
    /// else.
    pub fn try_downcast_boolean(&self, obj: Object) -> (r: Result<Boolean>)
        requires
            self.has(obj),
        ensures
            r == match self@[obj.id as int].value {
                ValueView::Boolean(b) => Ok::<Boolean, Error>(b),
                other => Err(
                    Error::TypeError(
                        TypeError::WrongType { expected: Kind::Boolean, got: other.kind() },
                    ),
                ),
            },
    {
        match &self.cells[obj.id].value {
            Value::Boolean(b) => Ok(*b),
            other => Err(
                Error::TypeError(TypeError::WrongType { expected: Kind::Boolean, got: other.kind() }),
            ),
        }
    }

    /// The number that `obj` holds, if it holds one.
    pub fn downcast_number(&self, obj: Object) -> (r: Option<Number>)
        requires
            self.has(obj),
        ensures
            r == match self@[obj.id as int].value {
                ValueView::Number(n) => Some(n),
                _ => None::<Number>,
            },
    {
        match &self.cells[obj.id].value {
            Value::Number(n) => Some(*n),
            _ => None,
        }
    }

    /// The number that `obj` holds; a type error if it holds something
    /// else.
    pub fn try_downcast_number(&self, obj: Object) -> (r: Result<Number>)
        requires
            self.has(obj),
        ensures
            r == match self@[obj.id as int].value {
                ValueView::Number(n) => Ok::<Number, Error>(n),
                other => Err(
                    Error::TypeError(
                        TypeError::WrongType { expected: Kind::Number, got: other.kind() },
                    ),
                ),
            },
    {
        match &self.cells[obj.id].value {
            Value::Number(n) => Ok(*n),
            other => Err(
                Error::TypeError(TypeError::WrongType { expected: Kind::Number, got: other.kind() }),
            ),
        }
    }

    /// The native function that `obj` holds, if it holds one.
    pub fn downcast_rustfn(&self, obj: Object) -> (r: Option<RustFn>)
        requires
            self.has(obj),
        ensures
            r == match self@[obj.id as int].value {
                ValueView::RustFn(f) => Some(f),
                _ => None::<RustFn>,
            },
    {
        match &self.cells[obj.id].value {
            Value::RustFn(f) => Some(*f),
            _ => None,
        }
    }

    /// The native function that `obj` holds; a type error if it holds
    /// something else.
    pub fn try_downcast_rustfn(&self, obj: Object) -> (r: Result<RustFn>)
        requires
            self.has(obj),
        ensures
            r == match self@[obj.id as int].value {
                ValueView::RustFn(f) => Ok::<RustFn, Error>(f),
                other => Err(
                    Error::TypeError(
                        TypeError::WrongType { expected: Kind::RustFn, got: other.kind() },
                    ),
                ),
            },
    {
        match &self.cells[obj.id].value {
            Value::RustFn(f) => Ok(*f),
            other => Err(
                Error::TypeError(TypeError::WrongType { expected: Kind::RustFn, got: other.kind() }),
            ),
        }
    }

    /// The text that `obj` holds, if it holds one.
    pub fn downcast_text(&self, obj: Object) -> (r: Option<&String>)
        requires
            self.has(obj),
        ensures
            match self@[obj.id as int].value {
                ValueView::Text(s) => r matches Some(t) && t@ == s,
                _ => r is None,
            },
    {
        match &self.cells[obj.id].value {
            Value::Text(s) => Some(s),
            _ => None,
        }
    }

    /// The list that `obj` holds, if it holds one.
    pub fn downcast_list(&self, obj: Object) -> (r: Option<&Vec<Object>>)
        requires
            self.has(obj),
        ensures
            match self@[obj.id as int].value {
                ValueView::List(items) => r matches Some(v) && v@ == items,
                _ => r is None,
            },
    {
        match &self.cells[obj.id].value {
            Value::List(items) => Some(items),
            _ => None,
        }
    }

    /// Puts `value` in place of the payload of `obj`, which is of the same
    /// native type. The attributes and parents of `obj` stay.
    pub fn replace_value(&mut self, obj: Object, value: Value)
        requires
            old(self).wf(),
            old(self).has(obj),
            value@.kind() == old(self)@[obj.id as int].value.kind(),
            value_closed(value@, old(self)@.len()),
        ensures
            final(self).wf(),
            final(self)@ == old(self)@.update(
                obj.id as int,
                CellView { value: value@, ..old(self)@[obj.id as int] },
            ),
            final(self).mappings() == old(self).mappings(),
    {
        let ghost before = self@;
        let ghost next = CellView { value: value@, ..before[obj.id as int] };
        self.cells[obj.id].value = value;
        proof {
            assert(self@ =~= before.update(obj.id as int, next));
            assert forall|i: int| 0 <= i < self@.len() implies cell_closed(
                #[trigger] self@[i],
                self@.len(),
            ) by {
                if i != obj.id {
                    assert(self@[i] == before[i]);
                } else {
                    assert(cell_closed(before[i], before.len()));
                }
            }
        }
    }

    /// The key as an attribute table holds it.
    pub fn stored_key(&self, key: &Key) -> (k: StoredKey)
        requires
            key_closed(*key, self@.len()),
        ensures
            k@ == key_id(self@, *key),
    {
        match key {
            Key::Literal(name) => StoredKey::Name((*name).to_owned()),
            Key::Object(o) => match &self.cells[o.id].value {
                Value::Text(s) => StoredKey::Name(s.clone()),
                _ => StoredKey::Identity(*o),
            },
        }
    }

    /// The value that `obj` has of its own under `key`, whatever its
    /// parents have.
    pub fn get_own(&self, obj: Object, key: &Key) -> (r: Option<Object>)
        requires
            self.wf(),
            self.has(obj),
            key_closed(*key, self@.len()),
        ensures
            r == if self@[obj.id as int].attrs.dom().contains(key_id(self@, *key)) {
                Some(self@[obj.id as int].attrs[key_id(self@, *key)])
            } else {
                None
            },
            r matches Some(v) ==> self.has(v),
    {
        let k = self.stored_key(key);
        let r = self.cells[obj.id].attrs.get(&k);
        proof {
            assert(cell_closed(self@[obj.id as int], self@.len()));
        }
        r
    }

    /// Stores `value` under `key` in the own table of `obj`. No parent and
    /// no other object changes.
    pub fn set_attr(&mut self, obj: Object, key: &Key, value: Object)
        requires
            old(self).wf(),
            old(self).has(obj),
            old(self).has(value),
            key_closed(*key, old(self)@.len()),
        ensures
            final(self).wf(),
            final(self)@ == old(self)@.update(
                obj.id as int,
                CellView {
                    attrs: old(self)@[obj.id as int].attrs.insert(key_id(old(self)@, *key), value),
                    ..old(self)@[obj.id as int]
                },
            ),
            final(self).mappings() == old(self).mappings(),
    {
        let ghost before = self@;
        let k = self.stored_key(key);
        let ghost next = CellView {
            attrs: before[obj.id as int].attrs.insert(k@, value),
            ..before[obj.id as int]
        };
        self.cells[obj.id].attrs.insert(k, value);
        proof {
            assert(self@ =~= before.update(obj.id as int, next));
            assert forall|i: int| 0 <= i < self@.len() implies cell_closed(
                #[trigger] self@[i],
                self@.len(),
            ) by {
                if i != obj.id {
                    assert(self@[i] == before[i]);
                } else {
                    assert(cell_closed(before[i], before.len()));
                }
            }
        }
    }

    /// Takes the attribute `key` out of the own table of `obj` and hands
    /// back its value. Where `obj` has no such attribute of its own the
    /// store stays as it is.
    pub fn del_attr(&mut self, obj: Object, key: &Key) -> (r: Result<Object>)
        requires
            old(self).wf(),
            old(self).has(obj),
            key_closed(*key, old(self)@.len()),
        ensures
            final(self).wf(),
            final(self).mappings() == old(self).mappings(),
            final(self)@ == old(self)@.update(
                obj.id as int,
                CellView {
                    attrs: old(self)@[obj.id as int].attrs.remove(key_id(old(self)@, *key)),
                    ..old(self)@[obj.id as int]
                },
            ),
            r == if old(self)@[obj.id as int].attrs.dom().contains(key_id(old(self)@, *key)) {
                Ok::<Object, Error>(old(self)@[obj.id as int].attrs[key_id(old(self)@, *key)])
            } else {
                Err(Error::KeyError(KeyError::DoesntExist { attr: *key, obj }))
            },
            r matches Ok(v) ==> final(self).has(v),
    {
        let ghost before = self@;
        let k = self.stored_key(key);
        let ghost next = CellView {
            attrs: before[obj.id as int].attrs.remove(k@),
            ..before[obj.id as int]
        };
        let removed = self.cells[obj.id].attrs.remove(&k);
        proof {
            assert(self@ =~= before.update(obj.id as int, next));
            assert(cell_closed(before[obj.id as int], before.len()));
            assert forall|i: int| 0 <= i < self@.len() implies cell_closed(
                #[trigger] self@[i],
                self@.len(),
            ) by {
                if i != obj.id {
                    assert(self@[i] == before[i]);
                }
            }
        }
        match removed {
            Some(v) => Ok(v),
            None => Err(Error::KeyError(KeyError::DoesntExist { attr: *key, obj })),
        }
    }

    /// Resolves `key` on `obj`, following at most `depth` steps from
    /// child to parent.
    fn lookup(&self, obj: Object, key: &StoredKey, depth: usize) -> (r: Resolution)
        requires
            self.wf(),
            self.has(obj),
        ensures
            r == resolve(self@, obj, key@, depth as nat),
            r matches Resolution::Found(v) ==> self.has(v),
            r matches Resolution::NotAList(h, _) ==> self.has(h),
        decreases depth, 2nat,
    {
        proof {
            assert(cell_closed(self@[obj.id as int], self@.len()));
        }
        let cell = &self.cells[obj.id];
        match cell.attrs.get(key) {
            Some(v) => Resolution::Found(v),
            None => self.search_from(&cell.parents, key, depth),
        }
    }

    /// Resolves `key` through `parents`, following at most `depth` steps
    /// from child to parent.
    fn search_from(&self, parents: &Parents, key: &StoredKey, depth: usize) -> (r: Resolution)
        requires
            self.wf(),
            parents_closed(parents@, self@.len()),
        ensures
            r == search_parents(self@, parents@, key@, depth as nat),
            r matches Resolution::Found(v) ==> self.has(v),
            r matches Resolution::NotAList(h, _) ==> self.has(h),
        decreases depth, 1nat,
    {
        match parents {
            Parents::Empty => Resolution::Missing,
            Parents::Builtin(list) => self.search_list(list, key, depth),
            Parents::Object(holder) => {
                proof {
                    assert(cell_closed(self@[holder.id as int], self@.len()));
                }
                match &self.cells[holder.id].value {
                    Value::List(items) => self.search_list(items, key, depth),
                    other => Resolution::NotAList(*holder, other.kind()),
                }
            },
        }
    }

    /// Resolves `key` on the objects of `list`, in order.
    fn search_list(&self, list: &Vec<Object>, key: &StoredKey, depth: usize) -> (r: Resolution)
        requires
            self.wf(),
            forall|i: int| 0 <= i < list.len() ==> self.has(#[trigger] list[i]),
        ensures
            r == search(self@, list@, key@, depth as nat),
            r matches Resolution::Found(v) ==> self.has(v),
            r matches Resolution::NotAList(h, _) ==> self.has(h),
        decreases depth, 0nat,
    {
        let mut i: usize = 0;
        assert(list@.skip(0) =~= list@);
        while i < list.len()
            invariant
                self.wf(),
                i <= list.len(),
                forall|j: int| 0 <= j < list.len() ==> self.has(#[trigger] list[j]),
                search(self@, list@, key@, depth as nat) == search(
                    self@,
                    list@.skip(i as int),
                    key@,
                    depth as nat,
                ),
            decreases list.len() - i,
        {
            let ghost rest = list@.skip(i as int);
            assert(rest[0] == list@[i as int]);
            assert(rest.drop_first() =~= list@.skip(i as int + 1));
            if depth == 0 {
                return Resolution::TooDeep;
            }
            let found = self.lookup(list[i], key, depth - 1);
            match found {
                Resolution::Missing => {},
                other => {
                    return other;
                },
            }
            i += 1;
        }
        Resolution::Missing
    }

    /// How the search for attribute `key` on `obj` ends.
    pub fn resolve_attr(&self, obj: Object, key: &Key) -> (r: Resolution)
        requires
            self.wf(),
            self.has(obj),
            key_closed(*key, self@.len()),
        ensures
            r == resolve(self@, obj, key_id(self@, *key), self@.len()),
            r matches Resolution::Found(v) ==> self.has(v),
            r matches Resolution::NotAList(h, _) ==> self.has(h),
    {
        let k = self.stored_key(key);
        self.lookup(obj, &k, self.cells.len())
    }

    /// The value of attribute `key` of `obj`: its own, or else that of the
    /// first parent, in list order, that resolves it. `None` where nothing
    /// resolves it. A type error where the search comes to parents held
    /// by an object that holds no list: to go on from there takes a call
    /// that converts it, see [`crate::resume::seek`].
    pub fn get_attr(&self, obj: Object, key: &Key) -> (r: Result<Option<Object>>)
        requires
            self.wf(),
            self.has(obj),
            key_closed(*key, self@.len()),
        ensures
            reports(r, resolve(self@, obj, key_id(self@, *key), self@.len())),
            r matches Ok(Some(v)) ==> self.has(v),
    {
        reported(self.resolve_attr(obj, key))
    }

    /// The value of the attribute named `key` of `obj`.
    pub fn get_attr_lit(&self, obj: Object, key: Literal) -> (r: Result<Option<Object>>)
        requires
            self.wf(),
            self.has(obj),
        ensures
            reports(r, resolve(self@, obj, KeyId::Name(key@), self@.len())),
            r matches Ok(Some(v)) ==> self.has(v),
    {
        self.get_attr(obj, &Key::Literal(key))
    }

    /// The value of attribute `key` of `obj`, as [`Heap::get_attr`] gives
    /// it.
    pub fn get_value(&self, obj: Object, key: &Key) -> (r: Result<Option<Object>>)
        requires
            self.wf(),
            self.has(obj),
            key_closed(*key, self@.len()),
        ensures
            reports(r, resolve(self@, obj, key_id(self@, *key), self@.len())),
            r matches Ok(Some(v)) ==> self.has(v),
    {
        self.get_attr(obj, key)
    }

    /// Whether a lookup of `key` on `obj` would find a value, in its own
    /// table or through its parents.
    pub fn has_attr(&self, obj: Object, key: &Key) -> (r: Result<bool>)
        requires
            self.wf(),
            self.has(obj),
            key_closed(*key, self@.len()),
        ensures
            reports_presence(r, resolve(self@, obj, key_id(self@, *key), self@.len())),
    {
        match self.get_attr(obj, key) {
            Ok(Some(_)) => Ok(true),
            Ok(None) => Ok(false),
            Err(e) => Err(e),
        }
    }

    /// Puts `value` in place of the payload of `obj` and hands back what
    /// was there.
    fn swap_value(&mut self, obj: Object, value: Value) -> (was: Value)
        requires
            old(self).wf(),
            old(self).has(obj),
            value_closed(value@, old(self)@.len()),
        ensures
            final(self).wf(),
            final(self).mappings() == old(self).mappings(),
            was@ == old(self)@[obj.id as int].value,
            value_closed(was@, old(self)@.len()),
            final(self)@ == with_payload(old(self)@, obj, value@),
    {
        let ghost before = self@;
        let ghost next = CellView { value: value@, ..before[obj.id as int] };
        let mut held = value;
        core::mem::swap(&mut self.cells[obj.id].value, &mut held);
        proof {
            assert(self@ =~= before.update(obj.id as int, next));
            assert(cell_closed(before[obj.id as int], before.len()));
            assert forall|i: int| 0 <= i < self@.len() implies cell_closed(
                #[trigger] self@[i],
                self@.len(),
            ) by {
                if i != obj.id {
                    assert(self@[i] == before[i]);
                }
            }
        }
        held
    }

    /// Resolves `key` on `obj` in the store in which the holders of
    /// `listings`, from `from` on, hold the lists given for them. The
    /// store is as before once the search has ended.
    fn lookup_under(
        &mut self,
        obj: Object,
        key: &StoredKey,
        listings: &Vec<Listing>,
        from: usize,
    ) -> (r: Resolution)
        requires
            old(self).wf(),
            old(self).has(obj),
            from <= listings.len(),
            listings_closed(listings@, old(self)@.len()),
        ensures
            final(self).wf(),
            final(self).mappings() == old(self).mappings(),
            final(self)@ == old(self)@,
            r == resolve(
                listed(old(self)@, listings@.skip(from as int)),
                obj,
                key@,
                old(self)@.len(),
            ),
            r matches Resolution::Found(v) ==> old(self).has(v),
            r matches Resolution::NotAList(h, _) ==> old(self).has(h),
        decreases listings.len() - from,
    {
        let ghost before = self@;
        let ghost rest = listings@.skip(from as int);
        if from >= listings.len() {
            assert(rest =~= Seq::<Listing>::empty());
            self.lookup(obj, key, self.cells.len())
        } else {
            let holder = listings[from].holder;
            let items = listings[from].items.clone();
            assert(rest[0] == listings@[from as int]);
            assert(rest.drop_first() =~= listings@.skip(from as int + 1));
            assert(listing_closed(listings@[from as int], before.len()));
            let was = self.swap_value(holder, Value::List(items));
            let r = self.lookup_under(obj, key, listings, from + 1);
            let _ = self.swap_value(holder, was);
            assert(self@ =~= before);
            r
        }
    }

    /// How the search for `key` on `obj` ends in the store in which the
    /// holders of `listings` hold the lists given for them: what a lookup
    /// finds once the objects that hold parents and are no lists have
    /// been converted to lists. The store itself stays as it is.
    pub fn resolve_listed(&mut self, obj: Object, key: &Key, listings: &Vec<Listing>) -> (r:
        Resolution)
        requires
            old(self).wf(),
            old(self).has(obj),
            key_closed(*key, old(self)@.len()),
            listings_closed(listings@, old(self)@.len()),
        ensures
            final(self).wf(),
            final(self).mappings() == old(self).mappings(),
            final(self)@ == old(self)@,
            r == resolve(
                listed(old(self)@, listings@),
                obj,
                key_id(old(self)@, *key),
                old(self)@.len(),
            ),
            r matches Resolution::Found(v) ==> old(self).has(v),
            r matches Resolution::NotAList(h, _) ==> old(self).has(h),
    {
        let k = self.stored_key(key);
        assert(listings@.skip(0) =~= listings@);
        self.lookup_under(obj, &k, listings, 0)
    }

    /// The value that `key` resolves to through `parents` alone.
    pub fn search_in(&self, parents: &Parents, key: &Key) -> (r: Result<Option<Object>>)
        requires
            self.wf(),
            parents_closed(parents@, self@.len()),
            key_closed(*key, self@.len()),
        ensures
            reports(r, search_parents(self@, parents@, key_id(self@, *key), self@.len())),
            r matches Ok(Some(v)) ==> self.has(v),
    {
        let k = self.stored_key(key);
        reported(self.search_from(parents, &k, self.cells.len()))
    }

    /// The list that `parents` stands for, in search order. A type error
    /// where `parents` is an object that holds no list.
    pub fn list_of(&self, parents: &Parents) -> (r: Result<Vec<Object>>)
        requires
            self.wf(),
            parents_closed(parents@, self@.len()),
        ensures
            match parent_list(self@, parents@) {
                Some(ps) => r matches Ok(v) && v@ == ps && forall|i: int|
                    0 <= i < v.len() ==> self.has(#[trigger] v[i]),
                None => r == Err::<Vec<Object>, Error>(
                    Error::TypeError(
                        TypeError::WrongType {
                            expected: Kind::List,
                            got: self@[parents@->Object_0.id as int].value.kind(),
                        },
                    ),
                ),
            },
    {
        match parents {
            Parents::Empty => {
                let v: Vec<Object> = Vec::new();
                assert(v@ =~= Seq::<Object>::empty());
                Ok(v)
            },
            Parents::Builtin(list) => Ok(list.clone()),
            Parents::Object(holder) => {
                proof {
                    assert(cell_closed(self@[holder.id as int], self@.len()));
                }
                match &self.cells[holder.id].value {
                    Value::List(items) => Ok(items.clone()),
                    other => Err(
                        Error::TypeError(
                            TypeError::WrongType { expected: Kind::List, got: other.kind() },
                        ),
                    ),
                }
            },
        }
    }

    /// The parents of `obj`, in the state they are in.
    pub fn parents(&self, obj: Object) -> (p: &Parents)
        requires
            self.wf(),
            self.has(obj),
        ensures
            p@ == self@[obj.id as int].parents,
            parents_closed(p@, self@.len()),
    {
        proof {
            assert(cell_closed(self@[obj.id as int], self@.len()));
        }
        &self.cells[obj.id].parents
    }

    /// Appends `item` to the list that `holder` holds. A type error, and
    /// no change, where `holder` holds no list.
    pub fn list_push(&mut self, holder: Object, item: Object) -> (r: Result<()>)
        requires
            old(self).wf(),
            old(self).has(holder),
            old(self).has(item),
        ensures
            final(self).wf(),
            final(self).mappings() == old(self).mappings(),
            match old(self)@[holder.id as int].value {
                ValueView::List(items) => r == Ok::<(), Error>(()) && final(self)@ == old(self)@.update(
                    holder.id as int,
                    CellView {
                        value: ValueView::List(items.push(item)),
                        ..old(self)@[holder.id as int]
                    },
                ),
                other => r == Err::<(), Error>(
                    Error::TypeError(
                        TypeError::WrongType { expected: Kind::List, got: other.kind() },
                    ),
                ) && final(self)@ == old(self)@,
            },
    {
        let ghost before = self@;
        match &mut self.cells[holder.id].value {
            Value::List(items) => {
                items.push(item);
            },
            other => {
                let got = other.kind();
                assert(self@ =~= before);
                return Err(Error::TypeError(TypeError::WrongType { expected: Kind::List, got }));
            },
        }
        proof {
            let items = before[holder.id as int].value->List_0;
            let next = CellView {
                value: ValueView::List(items.push(item)),
                ..before[holder.id as int]
            };
            assert(self@ =~= before.update(holder.id as int, next));
            assert(cell_closed(before[holder.id as int], before.len()));
            assert forall|i: int| 0 <= i < self@.len() implies cell_closed(
                #[trigger] self@[i],
                self@.len(),
            ) by {
                if i != holder.id {
                    assert(self@[i] == before[i]);
                }
            }
        }
        Ok(())
    }

    /// Puts `parents` in place of the parents of `obj` and hands back what
    /// was there.
    pub fn swap_parents(&mut self, obj: Object, parents: Parents) -> (was: Parents)
        requires
            old(self).wf(),
            old(self).has(obj),
            parents_closed(parents@, old(self)@.len()),
        ensures
            final(self).wf(),
            final(self).mappings() == old(self).mappings(),
            was@ == old(self)@[obj.id as int].parents,
            parents_closed(was@, old(self)@.len()),
            final(self)@ == old(self)@.update(
                obj.id as int,
                CellView { parents: parents@, ..old(self)@[obj.id as int] },
            ),
    {
        let ghost before = self@;
        let ghost next = CellView { parents: parents@, ..before[obj.id as int] };
        let mut held = parents;
        core::mem::swap(&mut self.cells[obj.id].parents, &mut held);
        proof {
            assert(self@ =~= before.update(obj.id as int, next));
            assert(cell_closed(before[obj.id as int], before.len()));
            assert forall|i: int| 0 <= i < self@.len() implies cell_closed(
                #[trigger] self@[i],
                self@.len(),
            ) by {
                if i != obj.id {
                    assert(self@[i] == before[i]);
                }
            }
        }
        held
    }

    /// Makes a new cell that holds what `obj` holds: the same payload, the
    /// same attributes under the same keys, the same parents. The new cell
    /// has an identity of its own, and a later change to either cell
    /// leaves the other as it is.
    pub fn deep_clone(&mut self, obj: Object) -> (copy: Object)
        requires
            old(self).wf(),
            old(self).has(obj),
        ensures
            final(self).wf(),
            final(self).mappings() == old(self).mappings(),
            copy.id == old(self)@.len(),
            final(self)@ == old(self)@.push(old(self)@[obj.id as int]),
    {
        let ghost before = self@;
        let id = self.cells.len();
        let cell = &self.cells[obj.id];
        let copy = Cell {
            value: cell.value.duplicate(),
            attrs: cell.attrs.duplicate(),
            parents: cell.parents.duplicate(),
        };
        self.cells.push(copy);
        proof {
            assert(self@ =~= before.push(before[obj.id as int]));
            assert forall|i: int| 0 <= i < self@.len() implies cell_closed(
                #[trigger] self@[i],
                self@.len(),
            ) by {
                if i < before.len() {
                    assert(self@[i] == before[i]);
                    lemma_cell_closed_grows(before[i], before.len(), self@.len());
                } else {
                    lemma_cell_closed_grows(before[obj.id as int], before.len(), self@.len());
                }
            }
        }
        Object { id }
    }

    /// Binds the call of what a lookup of `key` on `obj` found: `obj` as
    /// the receiver, `args` as the positional arguments. A key error
    /// where the lookup found nothing, a type error where it found
    /// something that is no native function.
    pub fn bind(&self, obj: Object, key: &Key, found: Option<Object>, args: Vec<Object>) -> (r:
        Result<Invocation>)
        requires
            found matches Some(v) ==> self.has(v),
        ensures
            match found {
                Some(v) => match self@[v.id as int].value {
                    ValueView::RustFn(f) => r matches Ok(call) && call.func == f && call.args.this
                        == Some(obj) && call.args.args@ == args@,
                    other => r matches Err(e) && e == Error::TypeError(
                        TypeError::NotCallable { got: other.kind() },
                    ),
                },
                None => r matches Err(e) && e == Error::KeyError(
                    KeyError::DoesntExist { attr: *key, obj },
                ),
            },
    {
        match found {
            Some(v) => match &self.cells[v.id].value {
                Value::RustFn(f) => Ok(Invocation { func: *f, args: Args::new_with_this(obj, args) }),
                other => Err(Error::TypeError(TypeError::NotCallable { got: other.kind() })),
            },
            None => Err(Error::KeyError(KeyError::DoesntExist { attr: *key, obj })),
        }
    }

    /// Resolves `key` on `obj` to a native function and binds the call:
    /// `obj` as the receiver, `args` as the positional arguments. A key
    /// error where nothing resolves the attribute, a type error where it
    /// resolves to something that is no native function.
    pub fn call_attr(&self, obj: Object, key: &Key, args: Vec<Object>) -> (r: Result<Invocation>)
        requires
            self.wf(),
            self.has(obj),
            key_closed(*key, self@.len()),
        ensures
            match resolve(self@, obj, key_id(self@, *key), self@.len()) {
                Resolution::Found(v) => match self@[v.id as int].value {
                    ValueView::RustFn(f) => r matches Ok(call) && call.func == f && call.args.this
                        == Some(obj) && call.args.args@ == args@,
                    other => r matches Err(e) && e == Error::TypeError(
                        TypeError::NotCallable { got: other.kind() },
                    ),
                },
                Resolution::Missing => r matches Err(e) && e == Error::KeyError(
                    KeyError::DoesntExist { attr: *key, obj },
                ),
                res => r matches Err(e) && fails_with(e, res),
            },
    {
        match self.get_attr(obj, key) {
            Ok(found) => self.bind(obj, key, found, args),
            Err(e) => Err(e),
        }
    }

    /// Appends `parent` as the last parent of `obj`. Parents that an
    /// object holds stay held by it, and its list grows; a type error,
    /// and no change, where that object holds no list: adding to it
    /// takes a call, see [`crate::resume::append_parent`].
    pub fn add_parent(&mut self, obj: Object, parent: Object) -> (r: Result<()>)
        requires
            old(self).wf(),
            old(self).has(obj),
            old(self).has(parent),
        ensures
            final(self).wf(),
            final(self).mappings() == old(self).mappings(),
            match old(self)@[obj.id as int].parents {
                ParentsView::Empty => r == Ok::<(), Error>(()) && final(self)@ == old(self)@.update(
                    obj.id as int,
                    CellView {
                        parents: ParentsView::Builtin(seq![parent]),
                        ..old(self)@[obj.id as int]
                    },
                ),
                ParentsView::Builtin(ps) => r == Ok::<(), Error>(()) && final(self)@ == old(self)@.update(
                    obj.id as int,
                    CellView {
                        parents: ParentsView::Builtin(ps.push(parent)),
                        ..old(self)@[obj.id as int]
                    },
                ),
                ParentsView::Object(holder) => match old(self)@[holder.id as int].value {
                    ValueView::List(items) => r == Ok::<(), Error>(()) && final(self)@ == old(self)@.update(
                        holder.id as int,
                        CellView {
                            value: ValueView::List(items.push(parent)),
                            ..old(self)@[holder.id as int]
                        },
                    ),
                    other => r == Err::<(), Error>(
                        Error::TypeError(
                            TypeError::WrongType { expected: Kind::List, got: other.kind() },
                        ),
                    ) && final(self)@ == old(self)@,
                },
            },
    {
        let ghost before = self@;
        proof {
            assert(cell_closed(before[obj.id as int], before.len()));
        }
        let mut held = self.swap_parents(obj, Parents::Empty);
        let ghost lifted = self@;
        let r = held.add_parent(self, parent);
        let ghost grown = self@;
        let _ = self.swap_parents(obj, held);
        proof {
            match before[obj.id as int].parents {
                ParentsView::Object(holder) => {
                    assert(lifted[holder.id as int].value == before[holder.id as int].value);
                    match before[holder.id as int].value {
                        ValueView::List(items) => {
                            assert(self@ =~= before.update(
                                holder.id as int,
                                CellView {
                                    value: ValueView::List(items.push(parent)),
                                    ..before[holder.id as int]
                                },
                            ));
                        },
                        _ => {
                            assert(self@ =~= before);
                        },
                    }
                },
                ParentsView::Builtin(ps) => {
                    assert(self@ =~= before.update(
                        obj.id as int,
                        CellView {
                            parents: ParentsView::Builtin(ps.push(parent)),
                            ..before[obj.id as int]
                        },
                    ));
                },
                ParentsView::Empty => {
                    assert(self@ =~= before.update(
                        obj.id as int,
                        CellView {
                            parents: ParentsView::Builtin(seq![parent]),
                            ..before[obj.id as int]
                        },
                    ));
                },
            }
        }
        r
    }

    /// The object that holds the list of parents of `obj`, so that the
    /// list can be handed out as a value. Parents held in place move into
    /// a new list object first, and `obj` holds them through it from then
    /// on.
    pub fn parents_to_object(&mut self, obj: Object) -> (list: Object)
        requires
            old(self).wf(),
            old(self).has(obj),
        ensures
            final(self).wf(),
            final(self).mappings() == old(self).mappings(),
            final(self).has(list),
            match old(self)@[obj.id as int].parents {
                ParentsView::Object(holder) => list == holder && final(self)@ == old(self)@,
                held => list.id == old(self)@.len() && final(self)@ == old(self)@.update(
                    obj.id as int,
                    CellView { parents: ParentsView::Object(list), ..old(self)@[obj.id as int] },
                ).push(
                    CellView {
                        value: ValueView::List(parent_list(old(self)@, held)->0),
                        attrs: Map::empty(),
                        parents: old(self).mappings().parents_for(Kind::List),
                    },
                ),
            },
    {
        let ghost before = self@;
        proof {
            assert(cell_closed(before[obj.id as int], before.len()));
        }
        let mut held = self.swap_parents(obj, Parents::Empty);
        let ghost lifted = self@;
        let list = held.to_object(self);
        let ghost grown = self@;
        let _ = self.swap_parents(obj, held);
        proof {
            match before[obj.id as int].parents {
                ParentsView::Object(holder) => {
                    assert(self@ =~= before);
                },
                was => {
                    assert(parent_list(lifted, was) == parent_list(before, was));
                    assert(self@ =~= before.update(
                        obj.id as int,
                        CellView { parents: ParentsView::Object(list), ..before[obj.id as int] },
                    ).push(
                        CellView {
                            value: ValueView::List(parent_list(before, was)->0),
                            attrs: Map::empty(),
                            parents: self.mappings().parents_for(Kind::List),
                        },
                    ));
                },
            }
        }
        list
    }

    /// Adds to `acc` the keys that `obj` has of its own or through its
    /// parents.
    fn collect_keys(&self, obj: Object, depth: usize, acc: &mut Vec<StoredKey>)
        requires
            self.wf(),
            self.has(obj),
            distinct_keys(old(acc)@),
        ensures
            distinct_keys(final(acc)@),
            key_set(final(acc)@) == key_set(old(acc)@).union(all_keys(self@, obj, depth as nat)),
        decreases depth, 1nat,
    {
        self.collect_own(obj, acc);
        let ghost own = acc@;
        proof {
            assert(cell_closed(self@[obj.id as int], self@.len()));
        }
        match &self.cells[obj.id].parents {
            Parents::Empty => {
                assert(keys_of_list(self@, Seq::<Object>::empty(), depth as nat) =~= Set::<
                    KeyId,
                >::empty());
            },
            Parents::Builtin(list) => {
                self.collect_list(list, depth, acc);
            },
            Parents::Object(holder) => {
                proof {
                    assert(cell_closed(self@[holder.id as int], self@.len()));
                }
                match &self.cells[holder.id].value {
                    Value::List(items) => {
                        self.collect_list(items, depth, acc);
                    },
                    _ => {},
                }
            },
        }
        proof {
            let inherited = match parent_list(self@, self@[obj.id as int].parents) {
                Some(ps) => keys_of_list(self@, ps, depth as nat),
                None => Set::empty(),
            };
            assert(key_set(acc@) =~= key_set(own).union(inherited));
            assert(key_set(acc@) =~= key_set(old(acc)@).union(all_keys(self@, obj, depth as nat)));
        }
    }

    /// Adds to `acc` the keys that `obj` has of its own.
    fn collect_own(&self, obj: Object, acc: &mut Vec<StoredKey>)
        requires
            self.wf(),
            self.has(obj),
            distinct_keys(old(acc)@),
        ensures
            distinct_keys(final(acc)@),
            key_set(final(acc)@) == key_set(old(acc)@).union(self@[obj.id as int].attrs.dom()),
    {
        let attrs = &self.cells[obj.id].attrs;
        let n = attrs.len();
        let mut i: usize = 0;
        while i < n
            invariant
                attrs.wf(),
                n == attrs@.dom().len(),
                i <= n,
                distinct_keys(acc@),
                forall|k: KeyId|
                    key_set(acc@).contains(k) <==> key_set(old(acc)@).contains(k) || exists|j: int|
                        0 <= j < i && (#[trigger] attrs.spec_entry(j)).key@ == k,
            decreases n - i,
        {
            let ghost before = acc@;
            let entry = attrs.entry(i);
            add_key(acc, &entry.key);
            proof {
                assert forall|k: KeyId|
                    key_set(acc@).contains(k) <==> key_set(old(acc)@).contains(k) || exists|j: int|
                        0 <= j < i + 1 && (#[trigger] attrs.spec_entry(j)).key@ == k by {
                    if key_set(acc@).contains(k) {
                        if k == entry.key@ {
                            assert(attrs.spec_entry(i as int).key@ == k);
                        } else {
                            assert(key_set(before).contains(k));
                        }
                    }
                    if exists|j: int| 0 <= j < i + 1 && (#[trigger] attrs.spec_entry(j)).key@ == k {
                        let j = choose|j: int|
                            0 <= j < i + 1 && (#[trigger] attrs.spec_entry(j)).key@ == k;
                        if j < i {
                            assert(key_set(before).contains(k));
                        }
                    }
                }
            }
            i += 1;
        }
        proof {
            attrs.lemma_entries();
            assert forall|k: KeyId|
                key_set(acc@).contains(k) <==> key_set(old(acc)@).union(attrs@.dom()).contains(
                    k,
                ) by {
                if attrs@.dom().contains(k) {
                    let j = choose|j: int|
                        0 <= j < attrs@.dom().len() && (#[trigger] attrs.spec_entry(j)).key@ == k;
                    assert(attrs.spec_entry(j).key@ == k);
                }
                if exists|j: int| 0 <= j < n && (#[trigger] attrs.spec_entry(j)).key@ == k {
                    let j = choose|j: int| 0 <= j < n && (#[trigger] attrs.spec_entry(j)).key@ == k;
                    attrs.lemma_entry_in_table(j);
                }
            }
            assert(key_set(acc@) =~= key_set(old(acc)@).union(self@[obj.id as int].attrs.dom()));
        }
    }

    /// Adds to `acc` the keys that the objects of `list` have of their own
    /// or through their parents.
    fn collect_list(&self, list: &Vec<Object>, depth: usize, acc: &mut Vec<StoredKey>)
        requires
            self.wf(),
            forall|i: int| 0 <= i < list.len() ==> self.has(#[trigger] list[i]),
            distinct_keys(old(acc)@),
        ensures
            distinct_keys(final(acc)@),
            key_set(final(acc)@) == key_set(old(acc)@).union(
                keys_of_list(self@, list@, depth as nat),
            ),
        decreases depth, 0nat,
    {
        if depth == 0 {
            assert(key_set(acc@) =~= key_set(acc@).union(Set::<KeyId>::empty()));
            return ;
        }
        let mut i: usize = 0;
        assert(list@.skip(0) =~= list@);
        while i < list.len()
            invariant
                self.wf(),
                depth > 0,
                i <= list.len(),
                forall|j: int| 0 <= j < list.len() ==> self.has(#[trigger] list[j]),
                distinct_keys(acc@),
                key_set(acc@).union(keys_of_list(self@, list@.skip(i as int), depth as nat))
                    == key_set(old(acc)@).union(keys_of_list(self@, list@, depth as nat)),
            decreases list.len() - i,
        {
            let ghost before = acc@;
            let ghost rest = list@.skip(i as int);
            proof {
                assert(rest[0] == list@[i as int]);
                assert(rest.drop_first() =~= list@.skip(i as int + 1));
            }
            self.collect_keys(list[i], depth - 1, acc);
            proof {
                assert(key_set(acc@).union(
                    keys_of_list(self@, list@.skip(i as int + 1), depth as nat),
                ) =~= key_set(before).union(keys_of_list(self@, rest, depth as nat)));
            }
            i += 1;
        }
        proof {
            assert(keys_of_list(self@, list@.skip(list@.len() as int), depth as nat) =~= Set::<
                KeyId,
            >::empty());
            assert(key_set(acc@) =~= key_set(acc@).union(Set::<KeyId>::empty()));
        }
    }

    /// The keys of `obj`, each once: those of its own table, and with
    /// `include_parents` those that its parents have of their own or
    /// through theirs as well.
    pub fn mapping_keys(&self, obj: Object, include_parents: bool) -> (keys: Vec<StoredKey>)
        requires
            self.wf(),
            self.has(obj),
        ensures
            distinct_keys(keys@),
            key_set(keys@) == if include_parents {
                all_keys(self@, obj, self@.len())
            } else {
                self@[obj.id as int].attrs.dom()
            },
            forall|i: int| 0 <= i < keys.len() ==> key_within((#[trigger] keys[i])@, self@.len()),
    {
        let mut keys: Vec<StoredKey> = Vec::new();
        assert(key_set(keys@) =~= Set::<KeyId>::empty());
        if include_parents {
            self.collect_keys(obj, self.cells.len(), &mut keys);
            assert(key_set(keys@) =~= all_keys(self@, obj, self@.len()));
            proof {
                lemma_all_keys_within(self@, obj, self@.len());
            }
        } else {
            self.collect_own(obj, &mut keys);
            assert(key_set(keys@) =~= self@[obj.id as int].attrs.dom());
            proof {
                assert(cell_closed(self@[obj.id as int], self@.len()));
            }
        }
        assert forall|i: int| 0 <= i < keys.len() implies key_within(
            (#[trigger] keys[i])@,
            self@.len(),
        ) by {
            assert(key_set(keys@).contains(keys[i]@));
        }
        keys
    }
}

} // verus!
