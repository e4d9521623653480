//! What holds of attribute resolution in every store.

use vstd::prelude::*;
use crate::key::KeyId;
use crate::object::{Object, ValueView};
use crate::heap::Mappings;
use crate::store::{
    cell_closed, closed, parent_list, resolve, search, search_parents, CellView, ParentsView,
    Resolution,
};
use crate::types::{installed, lemma_installed_member, Member};

verus! {

/// Read your write: once `value` is stored under `key` in the own table of
/// `obj`, resolving `key` on `obj` gives `value`, at every depth and
/// whatever the parents of `obj` hold.
pub proof fn lemma_read_your_write(
    store: Seq<CellView>,
    obj: Object,
    key: KeyId,
    value: Object,
    depth: nat,
)
    requires
        obj.id < store.len(),
    ensures
        resolve(
            store.update(
                obj.id as int,
                CellView {
                    attrs: store[obj.id as int].attrs.insert(key, value),
                    ..store[obj.id as int]
                },
            ),
            obj,
            key,
            depth,
        ) == Resolution::Found(value),
{
}

/// Storing under one key leaves what the object has of its own under
/// every other key as it was.
pub proof fn lemma_write_keeps_other_keys(
    store: Seq<CellView>,
    obj: Object,
    key: KeyId,
    value: Object,
    other: KeyId,
)
    requires
        obj.id < store.len(),
        other != key,
    ensures
        ({
            let after = store.update(
                obj.id as int,
                CellView {
                    attrs: store[obj.id as int].attrs.insert(key, value),
                    ..store[obj.id as int]
                },
            );
            &&& after[obj.id as int].attrs.dom().contains(other) == store[obj.id
                as int].attrs.dom().contains(other)
            &&& after[obj.id as int].attrs.dom().contains(other) ==> after[obj.id
                as int].attrs[other] == store[obj.id as int].attrs[other]
        }),
{
}

/// The search through a list ends with the result of the first object
/// that does not end in `Missing`.
pub proof fn lemma_search_first(
    store: Seq<CellView>,
    ps: Seq<Object>,
    key: KeyId,
    depth: nat,
    i: int,
)
    requires
        depth >= 1,
        0 <= i < ps.len(),
        forall|j: int|
            0 <= j < i ==> resolve(store, #[trigger] ps[j], key, (depth - 1) as nat)
                is Missing,
        !(resolve(store, ps[i], key, (depth - 1) as nat) is Missing),
    ensures
        search(store, ps, key, depth) == resolve(store, ps[i], key, (depth - 1) as nat),
    decreases i,
{
    if i > 0 {
        let rest = ps.drop_first();
        assert(resolve(store, ps[0], key, (depth - 1) as nat) is Missing);
        assert forall|j: int| 0 <= j < i - 1 implies resolve(
            store,
            #[trigger] rest[j],
            key,
            (depth - 1) as nat,
        ) is Missing by {
            assert(rest[j] == ps[j + 1]);
        }
        assert(rest[i - 1] == ps[i]);
        lemma_search_first(store, rest, key, depth, i - 1);
    }
}

/// First match wins: where `obj` has no attribute `key` of its own, the
/// lookup gives what the first of its parents, in list order, that
/// resolves `key` gives, whatever the parents after it hold.
pub proof fn lemma_first_match_wins(
    store: Seq<CellView>,
    obj: Object,
    key: KeyId,
    depth: nat,
    i: int,
)
    requires
        depth >= 1,
        !store[obj.id as int].attrs.dom().contains(key),
        parent_list(store, store[obj.id as int].parents) is Some,
        0 <= i < parent_list(store, store[obj.id as int].parents)->0.len(),
        forall|j: int|
            0 <= j < i ==> resolve(
                store,
                #[trigger] parent_list(store, store[obj.id as int].parents)->0[j],
                key,
                (depth - 1) as nat,
            ) is Missing,
        !(resolve(
            store,
            parent_list(store, store[obj.id as int].parents)->0[i],
            key,
            (depth - 1) as nat,
        ) is Missing),
    ensures
        resolve(store, obj, key, depth) == resolve(
            store,
            parent_list(store, store[obj.id as int].parents)->0[i],
            key,
            (depth - 1) as nat,
        ),
{
    let ps = parent_list(store, store[obj.id as int].parents)->0;
    lemma_search_first(store, ps, key, depth, i);
}

/// Of two parents that both have `key` of their own, the lookup gives the
/// value of the first in list order; with the two swapped it gives the
/// value of the other.
pub proof fn lemma_two_parents(
    store: Seq<CellView>,
    obj: Object,
    first: Object,
    second: Object,
    key: KeyId,
    depth: nat,
)
    requires
        depth >= 1,
        !store[obj.id as int].attrs.dom().contains(key),
        parent_list(store, store[obj.id as int].parents) == Some(seq![first, second]),
        store[first.id as int].attrs.dom().contains(key),
        store[second.id as int].attrs.dom().contains(key),
    ensures
        resolve(store, obj, key, depth) == Resolution::Found(store[first.id as int].attrs[key]),
{
    let ps = seq![first, second];
    assert(ps[0] == first);
    lemma_search_first(store, ps, key, depth, 0);
}

/// The state in which parents are held does not show: two states that
/// stand for the same list give the same result for every key at every
/// depth.
pub proof fn lemma_parents_representation(
    store: Seq<CellView>,
    p: ParentsView,
    q: ParentsView,
    key: KeyId,
    depth: nat,
)
    requires
        parent_list(store, p) is Some,
        parent_list(store, p) == parent_list(store, q),
    ensures
        search_parents(store, p, key, depth) == search_parents(store, q, key, depth),
{
}

/// No parents, an empty list held in place and an object that holds an
/// empty list are the same to every read: each stands for the empty list,
/// and no key resolves through any of them.
pub proof fn lemma_empty_parents(store: Seq<CellView>, holder: Object, key: KeyId, depth: nat)
    requires
        store[holder.id as int].value == ValueView::List(Seq::<Object>::empty()),
    ensures
        parent_list(store, ParentsView::Empty) == Some(Seq::<Object>::empty()),
        parent_list(store, ParentsView::Builtin(Seq::<Object>::empty())) == Some(
            Seq::<Object>::empty(),
        ),
        parent_list(store, ParentsView::Object(holder)) == Some(Seq::<Object>::empty()),
        search_parents(store, ParentsView::Empty, key, depth) == Resolution::Missing,
        search_parents(store, ParentsView::Builtin(Seq::<Object>::empty()), key, depth)
            == Resolution::Missing,
        search_parents(store, ParentsView::Object(holder), key, depth) == Resolution::Missing,
{
}

/// A search that did not run out of depth gives the same result with
/// more depth.
pub proof fn lemma_resolve_deeper(store: Seq<CellView>, obj: Object, key: KeyId, depth: nat)
    requires
        !(resolve(store, obj, key, depth) is TooDeep),
    ensures
        resolve(store, obj, key, depth + 1) == resolve(store, obj, key, depth),
    decreases depth, 1nat, 0nat,
{
    let cell = store[obj.id as int];
    if !cell.attrs.dom().contains(key) {
        match parent_list(store, cell.parents) {
            Some(ps) => {
                lemma_search_deeper(store, ps, key, depth);
            },
            None => {},
        }
    }
}

/// A search through a list that did not run out of depth gives the same
/// result with more depth.
pub proof fn lemma_search_deeper(store: Seq<CellView>, ps: Seq<Object>, key: KeyId, depth: nat)
    requires
        !(search(store, ps, key, depth) is TooDeep),
    ensures
        search(store, ps, key, depth + 1) == search(store, ps, key, depth),
    decreases depth, 0nat, ps.len(),
{
    if ps.len() > 0 {
        assert(depth > 0);
        let first = resolve(store, ps[0], key, (depth - 1) as nat);
        lemma_resolve_deeper(store, ps[0], key, (depth - 1) as nat);
        if first is Missing {
            lemma_search_deeper(store, ps.drop_first(), key, depth);
        }
    }
}

/// What is installed is dispatched to: once the members of `table` are
/// installed on a prototype object, an object that has the prototype as
/// its first parent, and nothing of its own under the key of a member,
/// resolves that key to the object that holds the member. The member is
/// the last one of the table with that key.
pub proof fn lemma_installed_dispatch(
    store: Seq<CellView>,
    mappings: Mappings,
    mapping: Object,
    table: Seq<Member>,
    i: int,
    obj: Object,
    depth: nat,
)
    requires
        mapping.id < store.len(),
        store.len() + table.len() <= usize::MAX,
        0 <= i < table.len(),
        forall|j: int| i < j < table.len() ==> (#[trigger] table[j]).key@ != table[i].key@,
        depth >= 1,
        !installed(store, mappings, mapping, table)[obj.id as int].attrs.dom().contains(
            KeyId::Name(table[i].key@),
        ),
        parent_list(
            installed(store, mappings, mapping, table),
            installed(store, mappings, mapping, table)[obj.id as int].parents,
        ) matches Some(ps) && ps.len() > 0 && ps[0] == mapping,
    ensures
        ({
            let after = installed(store, mappings, mapping, table);
            &&& resolve(after, obj, KeyId::Name(table[i].key@), depth) matches Resolution::Found(
                held,
            )
            &&& held.id == store.len() + i
            &&& after[held.id as int].value == table[i].payload()
        }),
{
    let after = installed(store, mappings, mapping, table);
    let key = KeyId::Name(table[i].key@);
    lemma_installed_member(store, mappings, mapping, table, i);
    let ps = parent_list(after, after[obj.id as int].parents)->0;
    assert(resolve(after, ps[0], key, (depth - 1) as nat) == Resolution::Found(
        after[mapping.id as int].attrs[key],
    ));
    lemma_search_first(after, ps, key, depth, 0);
}

/// The cell `b` of the store `after` reads as the cell `a` of the store
/// `before` does: the same attributes, and parents that stand for the
/// same list, or that are held by the same object, of the same type in
/// both stores, that holds no list.
pub open spec fn reads_alike(
    before: Seq<CellView>,
    a: CellView,
    after: Seq<CellView>,
    b: CellView,
) -> bool {
    &&& b.attrs == a.attrs
    &&& parent_list(after, b.parents) == parent_list(before, a.parents)
    &&& parent_list(before, a.parents) is None ==> b.parents == a.parents
        && after[b.parents->Object_0.id as int].value.kind()
        == before[a.parents->Object_0.id as int].value.kind()
}

/// Lookups see attributes and lists of parents, and nothing else: in two
/// stores whose cells read alike, every object of the first resolves
/// every key to the same result. The second store may hold more cells,
/// and may hold the parents of a cell in another state.
pub proof fn lemma_resolve_alike(
    before: Seq<CellView>,
    after: Seq<CellView>,
    obj: Object,
    key: KeyId,
    depth: nat,
)
    requires
        closed(before),
        before.len() <= after.len(),
        forall|i: int|
            0 <= i < before.len() ==> reads_alike(before, #[trigger] before[i], after, after[i]),
        obj.id < before.len(),
    ensures
        resolve(after, obj, key, depth) == resolve(before, obj, key, depth),
    decreases depth, 1nat, 0nat,
{
    let cell = before[obj.id as int];
    assert(reads_alike(before, cell, after, after[obj.id as int]));
    assert(cell_closed(cell, before.len()));
    if !cell.attrs.dom().contains(key) {
        match parent_list(before, cell.parents) {
            Some(ps) => {
                match cell.parents {
                    ParentsView::Object(holder) => {
                        assert(cell_closed(before[holder.id as int], before.len()));
                        assert(before[holder.id as int].value->List_0 == ps);
                    },
                    ParentsView::Builtin(list) => {
                        assert(cell.parents->Builtin_0 == ps);
                    },
                    ParentsView::Empty => {},
                }
                lemma_search_alike(before, after, ps, key, depth);
            },
            None => {},
        }
    }
}

/// In two stores whose cells read alike, a search through a list of
/// objects of the first gives the same result.
pub proof fn lemma_search_alike(
    before: Seq<CellView>,
    after: Seq<CellView>,
    ps: Seq<Object>,
    key: KeyId,
    depth: nat,
)
    requires
        closed(before),
        before.len() <= after.len(),
        forall|i: int|
            0 <= i < before.len() ==> reads_alike(before, #[trigger] before[i], after, after[i]),
        forall|i: int| 0 <= i < ps.len() ==> (#[trigger] ps[i]).id < before.len(),
    ensures
        search(after, ps, key, depth) == search(before, ps, key, depth),
    decreases depth, 0nat, ps.len(),
{
    if ps.len() > 0 && depth > 0 {
        let rest = ps.drop_first();
        assert forall|i: int| 0 <= i < rest.len() implies (#[trigger] rest[i]).id
            < before.len() by {
            assert(rest[i] == ps[i + 1]);
        }
        lemma_resolve_alike(before, after, ps[0], key, (depth - 1) as nat);
        lemma_search_alike(before, after, rest, key, depth);
    }
}

/// Moving the parents of an object into a list object does not show in
/// any lookup: every object that was there resolves every key as before.
pub proof fn lemma_promotion_transparent(
    before: Seq<CellView>,
    obj: Object,
    list_parents: ParentsView,
    any: Object,
    key: KeyId,
    depth: nat,
)
    requires
        closed(before),
        obj.id < before.len(),
        any.id < before.len(),
        before.len() < usize::MAX,
        !(before[obj.id as int].parents is Object),
    ensures
        ({
            let list = Object { id: before.len() as usize };
            let after = before.update(
                obj.id as int,
                CellView { parents: ParentsView::Object(list), ..before[obj.id as int] },
            ).push(
                CellView {
                    value: ValueView::List(
                        parent_list(before, before[obj.id as int].parents)->0,
                    ),
                    attrs: Map::empty(),
                    parents: list_parents,
                },
            );
            resolve(after, any, key, depth) == resolve(before, any, key, depth)
        }),
{
    let list = Object { id: before.len() as usize };
    let after = before.update(
        obj.id as int,
        CellView { parents: ParentsView::Object(list), ..before[obj.id as int] },
    ).push(
        CellView {
            value: ValueView::List(parent_list(before, before[obj.id as int].parents)->0),
            attrs: Map::empty(),
            parents: list_parents,
        },
    );
    assert forall|i: int| 0 <= i < before.len() implies reads_alike(
        before,
        #[trigger] before[i],
        after,
        after[i],
    ) by {
        assert(cell_closed(before[i], before.len()));
        if i != obj.id {
            assert(after[i] == before[i]);
            match before[i].parents {
                ParentsView::Object(holder) => {
                    assert(before[i].parents->Object_0 == holder);
                    assert(holder.id < before.len());
                    if holder.id == obj.id {
                        assert(after[holder.id as int].value == before[holder.id as int].value);
                    } else {
                        assert(after[holder.id as int] == before[holder.id as int]);
                    }
                },
                _ => {},
            }
        }
    }
    lemma_resolve_alike(before, after, any, key, depth);
}

/// Every parent has a lower rank than its child. Parents that can be
/// ranked so form no cycle.
pub open spec fn ranked(store: Seq<CellView>, rank: spec_fn(int) -> nat) -> bool {
    forall|i: int, j: int|
        0 <= i < store.len() && parent_list(store, store[i].parents) is Some && 0 <= j
            < parent_list(store, store[i].parents)->0.len() ==> rank(
            (#[trigger] parent_list(store, store[i].parents)->0[j]).id as int,
        ) < rank(i)
}

/// Where parents form no cycle, a lookup that may go as deep as the rank
/// of the object does not run out of depth.
pub proof fn lemma_no_cycle(
    store: Seq<CellView>,
    rank: spec_fn(int) -> nat,
    obj: Object,
    key: KeyId,
    depth: nat,
)
    requires
        closed(store),
        ranked(store, rank),
        obj.id < store.len(),
        depth >= rank(obj.id as int),
    ensures
        !(resolve(store, obj, key, depth) is TooDeep),
    decreases depth, 1nat, 0nat,
{
    let cell = store[obj.id as int];
    assert(cell_closed(cell, store.len()));
    if !cell.attrs.dom().contains(key) {
        match parent_list(store, cell.parents) {
            Some(ps) => {
                match cell.parents {
                    ParentsView::Object(holder) => {
                        assert(cell_closed(store[holder.id as int], store.len()));
                        assert(store[holder.id as int].value->List_0 == ps);
                    },
                    ParentsView::Builtin(list) => {
                        assert(cell.parents->Builtin_0 == ps);
                    },
                    ParentsView::Empty => {},
                }
                assert forall|j: int| 0 <= j < ps.len() implies (#[trigger] ps[j]).id < store.len()
                    && rank(ps[j].id as int) < depth by {
                    assert(parent_list(store, store[obj.id as int].parents)->0[j] == ps[j]);
                }
                lemma_no_cycle_search(store, rank, ps, key, depth);
            },
            None => {},
        }
    }
}

/// Where parents form no cycle, a search through objects of a rank below
/// the depth does not run out of depth.
pub proof fn lemma_no_cycle_search(
    store: Seq<CellView>,
    rank: spec_fn(int) -> nat,
    ps: Seq<Object>,
    key: KeyId,
    depth: nat,
)
    requires
        closed(store),
        ranked(store, rank),
        forall|j: int|
            0 <= j < ps.len() ==> (#[trigger] ps[j]).id < store.len() && rank(ps[j].id as int)
                < depth,
    ensures
        !(search(store, ps, key, depth) is TooDeep),
    decreases depth, 0nat, ps.len(),
{
    if ps.len() > 0 {
        assert(rank(ps[0].id as int) < depth);
        let rest = ps.drop_first();
        assert forall|j: int| 0 <= j < rest.len() implies (#[trigger] rest[j]).id < store.len()
            && rank(rest[j].id as int) < depth by {
            assert(rest[j] == ps[j + 1]);
        }
        lemma_no_cycle(store, rank, ps[0], key, (depth - 1) as nat);
        lemma_no_cycle_search(store, rank, rest, key, depth);
    }
}

/// Where every parent was made before its child, no lookup reports a
/// cycle: the depth that the store looks to, one step for each of its
/// cells, is enough.
pub proof fn lemma_older_parents(store: Seq<CellView>, obj: Object, key: KeyId)
    requires
        closed(store),
        obj.id < store.len(),
        forall|i: int, j: int|
            0 <= i < store.len() && parent_list(store, store[i].parents) is Some && 0 <= j
                < parent_list(store, store[i].parents)->0.len() ==> (#[trigger] parent_list(
                store,
                store[i].parents,
            )->0[j]).id < i,
    ensures
        !(resolve(store, obj, key, store.len()) is TooDeep),
{
    let rank = |i: int|
        if i >= 0 {
            i as nat
        } else {
            0nat
        };
    assert(ranked(store, rank));
    lemma_no_cycle(store, rank, obj, key, store.len());
}

} // verus!
