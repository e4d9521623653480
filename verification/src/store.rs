//! What the store holds, as plain values, and how an attribute is resolved
//! in it: the model that the contracts of the store speak of.

use vstd::prelude::*;
use crate::error::{Error, Result, TypeError, PARENTS_CYCLE};
use crate::key::{Key, KeyId};
use crate::object::{Kind, Object, ValueView};

verus! {

/// The parents of a cell: none, a list held in place, or one object that
/// holds the list.
pub enum ParentsView {
    Empty,
    Builtin(Seq<Object>),
    Object(Object),
}

/// One cell: its payload, its own attributes and its parents.
pub struct CellView {
    pub value: ValueView,
    pub attrs: Map<KeyId, Object>,
    pub parents: ParentsView,
}

/// Every handle that the parents hold names one of `len` cells.
pub open spec fn parents_closed(p: ParentsView, len: nat) -> bool {
    match p {
        ParentsView::Empty => true,
        ParentsView::Builtin(ps) => forall|i: int| 0 <= i < ps.len() ==> (#[trigger] ps[i]).id < len,
        ParentsView::Object(o) => o.id < len,
    }
}

/// Every handle that the payload holds names one of `len` cells.
pub open spec fn value_closed(v: ValueView, len: nat) -> bool {
    match v {
        ValueView::List(items) => forall|i: int|
            0 <= i < items.len() ==> (#[trigger] items[i]).id < len,
        _ => true,
    }
}

/// A key that is an object names one of `len` cells.
pub open spec fn key_within(k: KeyId, len: nat) -> bool {
    k matches KeyId::Identity(i) ==> 0 <= i < len
}

/// Every handle that the cell holds names one of `len` cells.
pub open spec fn cell_closed(c: CellView, len: nat) -> bool {
    &&& value_closed(c.value, len)
    &&& parents_closed(c.parents, len)
    &&& forall|k: KeyId| #[trigger] c.attrs.dom().contains(k) ==> c.attrs[k].id < len
    &&& forall|k: KeyId| #[trigger] c.attrs.dom().contains(k) ==> key_within(k, len)
}

/// Every handle in the store names a cell of the store.
pub open spec fn closed(store: Seq<CellView>) -> bool {
    forall|i: int| 0 <= i < store.len() ==> cell_closed(#[trigger] store[i], store.len())
}

/// What a key stands for in the store: a literal and a text object with
/// the same characters are the same key; any other object is a key of
/// its own.
pub open spec fn key_id(store: Seq<CellView>, key: Key) -> KeyId {
    match key {
        Key::Literal(name) => KeyId::Name(name@),
        Key::Object(o) => match store[o.id as int].value {
            ValueView::Text(s) => KeyId::Name(s),
            _ => KeyId::Identity(o.id as int),
        },
    }
}

/// The key names cells of the store only.
pub open spec fn key_closed(key: Key, len: nat) -> bool {
    match key {
        Key::Literal(_) => true,
        Key::Object(o) => o.id < len,
    }
}

/// The payload of the cell that `obj` names.
pub open spec fn payload(store: Seq<CellView>, obj: Object) -> ValueView {
    store[obj.id as int].value
}

/// The store with `value` as the payload of the cell that `obj` names.
pub open spec fn with_payload(store: Seq<CellView>, obj: Object, value: ValueView) -> Seq<CellView> {
    store.update(obj.id as int, CellView { value, ..store[obj.id as int] })
}

/// The list of parents that `p` stands for, in search order. `None` where
/// `p` is an object that holds no list.
pub open spec fn parent_list(store: Seq<CellView>, p: ParentsView) -> Option<Seq<Object>> {
    match p {
        ParentsView::Empty => Some(Seq::empty()),
        ParentsView::Builtin(ps) => Some(ps),
        ParentsView::Object(o) => match store[o.id as int].value {
            ValueView::List(items) => Some(items),
            _ => None,
        },
    }
}

/// How the search for an attribute ends.
pub enum Resolution {
    /// The attribute resolves to this value.
    Found(Object),
    /// Neither the object nor any parent has the attribute.
    Missing,
    /// The search came to parents held by this object, which is of this
    /// type and holds no list.
    NotAList(Object, Kind),
    /// The search went deeper than the store has cells: the parents form a
    /// cycle.
    TooDeep,
}

/// The value of attribute `key` of `obj`: its own, or else that of the
/// first parent, in list order, that resolves it. The search follows at
/// most `depth` steps from child to parent.
pub open spec fn resolve(store: Seq<CellView>, obj: Object, key: KeyId, depth: nat) -> Resolution
    decreases depth, 1nat, 0nat,
{
    let cell = store[obj.id as int];
    if cell.attrs.dom().contains(key) {
        Resolution::Found(cell.attrs[key])
    } else {
        match parent_list(store, cell.parents) {
            Some(ps) => search(store, ps, key, depth),
            None => Resolution::NotAList(
                cell.parents->Object_0,
                store[cell.parents->Object_0.id as int].value.kind(),
            ),
        }
    }
}

/// The result of the first object of `ps` for which the search does not
/// end in `Missing`; `Missing` if there is none.
pub open spec fn search(store: Seq<CellView>, ps: Seq<Object>, key: KeyId, depth: nat) -> Resolution
    decreases depth, 0nat, ps.len(),
{
    if ps.len() == 0 {
        Resolution::Missing
    } else if depth == 0 {
        Resolution::TooDeep
    } else {
        match resolve(store, ps[0], key, (depth - 1) as nat) {
            Resolution::Missing => search(store, ps.drop_first(), key, depth),
            other => other,
        }
    }
}

/// What a search through `p` alone gives, without an object of its own
/// before it.
pub open spec fn search_parents(store: Seq<CellView>, p: ParentsView, key: KeyId, depth: nat) -> Resolution {
    match parent_list(store, p) {
        Some(ps) => search(store, ps, key, depth),
        None => Resolution::NotAList(p->Object_0, store[p->Object_0.id as int].value.kind()),
    }
}

/// The error of a search that does not end in a value or in `Missing`.
pub open spec fn fails_with(e: Error, res: Resolution) -> bool {
    match res {
        Resolution::NotAList(_, kind) => e == Error::TypeError(
            TypeError::WrongType { expected: Kind::List, got: kind },
        ),
        Resolution::TooDeep => e == Error::Internal(PARENTS_CYCLE),
        _ => false,
    }
}

/// `r` is what a lookup hands out for a search that ended in `res`.
pub open spec fn reports(r: Result<Option<Object>>, res: Resolution) -> bool {
    match res {
        Resolution::Found(v) => r == Ok::<Option<Object>, Error>(Some(v)),
        Resolution::Missing => r == Ok::<Option<Object>, Error>(None),
        _ => r matches Err(e) && fails_with(e, res),
    }
}

/// What a lookup hands out for a search that ended in `res`.
pub fn reported(res: Resolution) -> (r: Result<Option<Object>>)
    ensures
        reports(r, res),
{
    match res {
        Resolution::Found(v) => Ok(Some(v)),
        Resolution::Missing => Ok(None),
        Resolution::NotAList(_, kind) => Err(
            Error::TypeError(TypeError::WrongType { expected: Kind::List, got: kind }),
        ),
        Resolution::TooDeep => Err(Error::Internal(PARENTS_CYCLE)),
    }
}

/// `r` is what a test for presence hands out for a search that ended in
/// `res`.
pub open spec fn reports_presence(r: Result<bool>, res: Resolution) -> bool {
    match res {
        Resolution::Found(_) => r == Ok::<bool, Error>(true),
        Resolution::Missing => r == Ok::<bool, Error>(false),
        _ => r matches Err(e) && fails_with(e, res),
    }
}

/// The keys that `obj` has of its own or through its parents, following
/// at most `depth` steps from child to parent. Parents held by an object
/// that holds no list add none.
pub open spec fn all_keys(store: Seq<CellView>, obj: Object, depth: nat) -> Set<KeyId>
    decreases depth, 1nat, 0nat,
{
    let cell = store[obj.id as int];
    cell.attrs.dom().union(
        match parent_list(store, cell.parents) {
            Some(ps) => keys_of_list(store, ps, depth),
            None => Set::empty(),
        },
    )
}

/// The keys that the objects of `ps` have of their own or through their
/// parents.
pub open spec fn keys_of_list(store: Seq<CellView>, ps: Seq<Object>, depth: nat) -> Set<KeyId>
    decreases depth, 0nat, ps.len(),
{
    if ps.len() == 0 || depth == 0 {
        Set::empty()
    } else {
        all_keys(store, ps[0], (depth - 1) as nat).union(
            keys_of_list(store, ps.drop_first(), depth),
        )
    }
}

/// In a closed store the keys of an object and of its parents name cells
/// of the store wherever they are objects.
pub proof fn lemma_all_keys_within(store: Seq<CellView>, obj: Object, depth: nat)
    requires
        closed(store),
        obj.id < store.len(),
    ensures
        forall|k: KeyId| #[trigger]
            all_keys(store, obj, depth).contains(k) ==> key_within(k, store.len()),
    decreases depth, 1nat, 0nat,
{
    let cell = store[obj.id as int];
    assert(cell_closed(cell, store.len()));
    let inherited = match parent_list(store, cell.parents) {
        Some(ps) => keys_of_list(store, ps, depth),
        None => Set::empty(),
    };
    match parent_list(store, cell.parents) {
        Some(ps) => {
            match cell.parents {
                ParentsView::Object(holder) => {
                    assert(cell_closed(store[holder.id as int], store.len()));
                    assert(store[holder.id as int].value->List_0 == ps);
                },
                ParentsView::Builtin(list) => {
                    assert(cell.parents->Builtin_0 == ps);
                },
                ParentsView::Empty => {},
            }
            lemma_keys_of_list_within(store, ps, depth);
        },
        None => {},
    }
    assert forall|k: KeyId| #[trigger] all_keys(store, obj, depth).contains(k) implies key_within(
        k,
        store.len(),
    ) by {
        if cell.attrs.dom().contains(k) {
        } else {
            assert(inherited.contains(k));
        }
    }
}

/// In a closed store the keys of a list of objects name cells of the
/// store wherever they are objects.
pub proof fn lemma_keys_of_list_within(store: Seq<CellView>, ps: Seq<Object>, depth: nat)
    requires
        closed(store),
        forall|i: int| 0 <= i < ps.len() ==> (#[trigger] ps[i]).id < store.len(),
    ensures
        forall|k: KeyId| #[trigger]
            keys_of_list(store, ps, depth).contains(k) ==> key_within(k, store.len()),
    decreases depth, 0nat, ps.len(),
{
    if ps.len() > 0 && depth > 0 {
        let rest = ps.drop_first();
        assert forall|i: int| 0 <= i < rest.len() implies (#[trigger] rest[i]).id < store.len() by {
            assert(rest[i] == ps[i + 1]);
        }
        lemma_all_keys_within(store, ps[0], (depth - 1) as nat);
        lemma_keys_of_list_within(store, rest, depth);
        assert forall|k: KeyId| #[trigger]
            keys_of_list(store, ps, depth).contains(k) implies key_within(k, store.len()) by {
            if all_keys(store, ps[0], (depth - 1) as nat).contains(k) {
            } else {
                assert(keys_of_list(store, rest, depth).contains(k));
            }
        }
    }
}

} // verus!
