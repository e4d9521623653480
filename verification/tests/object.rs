use quest_core::boolean::Boolean;
use quest_core::error::{Error, KeyError, TypeError};
use quest_core::heap::{Heap, Listing};
use quest_core::key::{Key, StoredKey};
use quest_core::number::Number;
use quest_core::object::{Kind, Object, Value};
use quest_core::parents::Parents;
use quest_core::resume::{after_listing, append_parent, seek, Added, Sought};
use quest_core::rustfn::{NativeFn, RustFn};
use quest_core::store::Resolution;
use quest_core::types::{init, ObjectType};

fn plain(heap: &mut Heap) -> Object {
    heap.new_object(Value::Pristine)
}

fn child_of(heap: &mut Heap, parents: Vec<Object>) -> Object {
    heap.new_with_parent(Value::Pristine, parents)
}

fn text(heap: &mut Heap, s: &str) -> Object {
    heap.new_object(Value::Text(s.to_string()))
}

#[test]
fn identities_are_assigned_in_order() {
    let mut heap = Heap::new();
    assert_eq!(heap.len(), 0);
    let a = plain(&mut heap);
    let b = plain(&mut heap);
    let c = plain(&mut heap);
    assert_eq!((a.id(), b.id(), c.id()), (0, 1, 2));
    assert_eq!(heap.len(), 3);
    assert!(a.is_identical(a));
    assert!(!a.is_identical(b));
    assert!(heap.contains(c));
    assert!(!heap.contains(Object { id: 3 }));
}

#[test]
fn read_your_write() {
    let mut heap = Heap::new();
    let p = plain(&mut heap);
    let q = plain(&mut heap);
    let o = child_of(&mut heap, vec![p, q]);
    let v = plain(&mut heap);
    let w = plain(&mut heap);
    let k = Key::Literal("k");
    heap.set_attr(p, &k, w);
    heap.set_attr(q, &k, w);
    heap.set_attr(o, &k, v);
    assert_eq!(heap.get_attr(o, &k).unwrap(), Some(v));
    assert_eq!(heap.get_value(o, &k).unwrap(), Some(v));
    assert_eq!(heap.get_own(o, &k), Some(v));
    assert_eq!(heap.get_attr_lit(o, "k").unwrap(), Some(v));
    assert_eq!(heap.has_attr(o, &k).unwrap(), true);
    heap.set_attr(o, &k, w);
    assert_eq!(heap.get_attr(o, &k).unwrap(), Some(w));
    assert_eq!(heap.get_attr(p, &k).unwrap(), Some(w));
}

#[test]
fn set_attr_writes_the_own_table_only() {
    let mut heap = Heap::new();
    let p = plain(&mut heap);
    let o = child_of(&mut heap, vec![p]);
    let v = plain(&mut heap);
    let w = plain(&mut heap);
    let k = Key::Literal("k");
    heap.set_attr(p, &k, v);
    heap.set_attr(o, &k, w);
    assert_eq!(heap.get_attr(p, &k).unwrap(), Some(v));
    assert_eq!(heap.get_own(p, &k), Some(v));
    assert_eq!(heap.get_attr(o, &k).unwrap(), Some(w));
    assert_eq!(heap.del_attr(o, &k).unwrap(), w);
    assert_eq!(heap.get_own(o, &k), None);
    assert_eq!(heap.get_attr(o, &k).unwrap(), Some(v));
}

#[test]
fn first_match_wins() {
    let mut heap = Heap::new();
    let first = plain(&mut heap);
    let second = plain(&mut heap);
    let one = plain(&mut heap);
    let v2 = plain(&mut heap);
    let k = Key::Literal("k");
    heap.set_attr(first, &k, one);
    heap.set_attr(second, &k, v2);
    let o = child_of(&mut heap, vec![first, second]);
    let reversed = child_of(&mut heap, vec![second, first]);
    assert_eq!(heap.get_attr(o, &k).unwrap(), Some(one));
    assert_eq!(heap.get_attr(reversed, &k).unwrap(), Some(v2));

    let only_second = Key::Literal("only_second");
    heap.set_attr(second, &only_second, v2);
    assert_eq!(heap.get_attr(o, &only_second).unwrap(), Some(v2));
    assert_eq!(heap.get_attr(o, &Key::Literal("missing")).unwrap(), None);
    assert_eq!(heap.has_attr(o, &Key::Literal("missing")).unwrap(), false);
}

#[test]
fn lookup_goes_through_parents_of_parents() {
    let mut heap = Heap::new();
    let root = plain(&mut heap);
    let middle = child_of(&mut heap, vec![root]);
    let other = plain(&mut heap);
    let leaf = child_of(&mut heap, vec![middle, other]);
    let v = plain(&mut heap);
    let w = plain(&mut heap);
    let k = Key::Literal("k");
    heap.set_attr(root, &k, v);
    heap.set_attr(other, &k, w);
    assert_eq!(heap.get_attr(leaf, &k).unwrap(), Some(v));
}

#[test]
fn has_attr_and_del_attr() {
    let mut heap = Heap::new();
    let p = plain(&mut heap);
    let o = child_of(&mut heap, vec![p]);
    let v = plain(&mut heap);
    let k = Key::Literal("k");
    heap.set_attr(p, &k, v);
    assert_eq!(heap.has_attr(o, &k).unwrap(), true);
    assert!(matches!(
        heap.del_attr(o, &k),
        Err(Error::KeyError(KeyError::DoesntExist { attr: Key::Literal("k"), obj })) if obj == o
    ));
    assert_eq!(heap.has_attr(o, &k).unwrap(), true);
    assert_eq!(heap.del_attr(p, &k).unwrap(), v);
    assert_eq!(heap.has_attr(o, &k).unwrap(), false);
}

#[test]
fn a_text_object_and_a_literal_are_one_key() {
    let mut heap = Heap::new();
    let o = plain(&mut heap);
    let v = plain(&mut heap);
    let name = text(&mut heap, "k");
    let same_name = text(&mut heap, "k");
    let other_name = text(&mut heap, "j");
    heap.set_attr(o, &Key::Literal("k"), v);
    assert_eq!(heap.get_attr(o, &Key::Object(name)).unwrap(), Some(v));
    assert_eq!(heap.get_attr(o, &Key::Object(same_name)).unwrap(), Some(v));
    assert_eq!(heap.get_attr(o, &Key::Object(other_name)).unwrap(), None);
    heap.set_attr(o, &Key::Object(other_name), name);
    assert_eq!(heap.get_attr_lit(o, "j").unwrap(), Some(name));
}

#[test]
fn any_other_object_is_a_key_by_identity() {
    let mut heap = Heap::new();
    let o = plain(&mut heap);
    let v = plain(&mut heap);
    let one = heap.new_object(Value::Number(Number::one()));
    let another_one = heap.new_object(Value::Number(Number::one()));
    heap.set_attr(o, &Key::Object(one), v);
    assert_eq!(heap.get_attr(o, &Key::Object(one)).unwrap(), Some(v));
    assert_eq!(heap.get_attr(o, &Key::Object(another_one)).unwrap(), None);
}

#[test]
fn parents_read_the_same_in_every_state() {
    let mut heap = Heap::new();
    let holder = heap.new_object(Value::List(vec![]));
    let key_object = text(&mut heap, "k");
    let states = [Parents::new(), Parents::from_list(vec![]), Parents::from_object(holder)];
    for parents in states.iter() {
        assert_eq!(parents.keys(&heap).unwrap(), vec![]);
        assert_eq!(parents.has_lit(&heap, "k").unwrap(), false);
        assert_eq!(parents.get_lit(&heap, "k").unwrap(), None);
        assert_eq!(parents.has_obj(&heap, &key_object).unwrap(), false);
        assert_eq!(parents.get_obj(&heap, &key_object).unwrap(), None);
    }

    let first = plain(&mut heap);
    let second = plain(&mut heap);
    let one = plain(&mut heap);
    let v2 = plain(&mut heap);
    heap.set_attr(first, &Key::Literal("k"), one);
    heap.set_attr(second, &Key::Literal("k"), v2);
    heap.set_attr(second, &Key::Literal("j"), v2);
    let list_holder = heap.new_object(Value::List(vec![first, second]));
    let states = [Parents::from_list(vec![first, second]), Parents::from_object(list_holder)];
    for parents in states.iter() {
        assert_eq!(parents.keys(&heap).unwrap(), vec![first, second]);
        assert_eq!(parents.has_lit(&heap, "k").unwrap(), true);
        assert_eq!(parents.get_lit(&heap, "k").unwrap(), Some(one));
        assert_eq!(parents.get_lit(&heap, "j").unwrap(), Some(v2));
        assert_eq!(parents.get_lit(&heap, "i").unwrap(), None);
        assert_eq!(parents.has_obj(&heap, &key_object).unwrap(), true);
        assert_eq!(parents.get_obj(&heap, &key_object).unwrap(), Some(one));
    }
}

#[test]
fn add_parent_appends_in_every_state() {
    let mut heap = Heap::new();
    let first = plain(&mut heap);
    let second = plain(&mut heap);

    let mut parents = Parents::new();
    parents.add_parent(&mut heap, first).unwrap();
    assert!(matches!(parents, Parents::Builtin(_)));
    assert_eq!(parents.keys(&heap).unwrap(), vec![first]);
    parents.add_parent(&mut heap, second).unwrap();
    assert!(matches!(parents, Parents::Builtin(_)));
    assert_eq!(parents.keys(&heap).unwrap(), vec![first, second]);

    let list = parents.to_object(&mut heap);
    assert!(matches!(parents, Parents::Object(o) if o == list));
    assert_eq!(heap.downcast_list(list), Some(&vec![first, second]));
    assert_eq!(parents.keys(&heap).unwrap(), vec![first, second]);
    let third = plain(&mut heap);
    parents.add_parent(&mut heap, third).unwrap();
    assert!(matches!(parents, Parents::Object(o) if o == list));
    assert_eq!(parents.keys(&heap).unwrap(), vec![first, second, third]);
    assert_eq!(heap.downcast_list(list), Some(&vec![first, second, third]));
    let again = parents.to_object(&mut heap);
    assert!(again.is_identical(list));
}

#[test]
fn to_object_of_no_parents_is_an_empty_list() {
    let mut heap = Heap::new();
    let mut parents = Parents::new();
    let cells = heap.len();
    let list = parents.to_object(&mut heap);
    assert_eq!(list.id(), cells);
    assert_eq!(heap.downcast_list(list), Some(&vec![]));
    assert!(matches!(parents, Parents::Object(o) if o == list));
    assert_eq!(parents.get_lit(&heap, "k").unwrap(), None);
    let p = plain(&mut heap);
    parents.add_parent(&mut heap, p).unwrap();
    assert_eq!(parents.keys(&heap).unwrap(), vec![p]);
}

#[test]
fn parents_of_an_object_are_promoted_in_place() {
    let mut heap = Heap::new();
    let first = plain(&mut heap);
    let one = plain(&mut heap);
    heap.set_attr(first, &Key::Literal("k"), one);
    let o = plain(&mut heap);
    assert!(matches!(heap.parents(o), Parents::Empty));
    heap.add_parent(o, first).unwrap();
    assert!(matches!(heap.parents(o), Parents::Builtin(_)));
    assert_eq!(heap.get_attr_lit(o, "k").unwrap(), Some(one));

    let list = heap.parents_to_object(o);
    assert!(matches!(heap.parents(o), Parents::Object(l) if *l == list));
    assert_eq!(heap.get_attr_lit(o, "k").unwrap(), Some(one));
    assert_eq!(heap.parents_to_object(o), list);

    let second = plain(&mut heap);
    let v2 = plain(&mut heap);
    heap.set_attr(second, &Key::Literal("j"), v2);
    heap.add_parent(o, second).unwrap();
    assert!(matches!(heap.parents(o), Parents::Object(l) if *l == list));
    assert_eq!(heap.get_attr_lit(o, "j").unwrap(), Some(v2));
    assert_eq!(heap.list_of(heap.parents(o)).unwrap(), vec![first, second]);

    // the list is shared: what is pushed on it shows in the lookup
    let third = plain(&mut heap);
    let v3 = plain(&mut heap);
    heap.set_attr(third, &Key::Literal("i"), v3);
    heap.list_push(list, third).unwrap();
    assert_eq!(heap.get_attr_lit(o, "i").unwrap(), Some(v3));
}

#[test]
fn parents_held_by_something_that_is_no_list() {
    let mut heap = Heap::new();
    let holder = heap.new_object(Value::Boolean(Boolean::new(true)));
    let p = plain(&mut heap);
    let mut parents = Parents::from_object(holder);
    let wrong = |r: Error| {
        matches!(
            r,
            Error::TypeError(TypeError::WrongType { expected: Kind::List, got: Kind::Boolean })
        )
    };
    assert!(wrong(parents.keys(&heap).unwrap_err()));
    assert!(wrong(parents.get_lit(&heap, "k").unwrap_err()));
    assert!(wrong(parents.has_lit(&heap, "k").unwrap_err()));
    assert!(wrong(parents.add_parent(&mut heap, p).unwrap_err()));
    assert!(wrong(heap.list_push(holder, p).unwrap_err()));

    let o = plain(&mut heap);
    heap.swap_parents(o, Parents::from_object(holder));
    assert!(wrong(heap.get_attr_lit(o, "k").unwrap_err()));
    let v = plain(&mut heap);
    heap.set_attr(o, &Key::Literal("k"), v);
    assert_eq!(heap.get_attr_lit(o, "k").unwrap(), Some(v));
}

#[test]
fn a_cycle_of_parents_is_an_internal_error() {
    let mut heap = Heap::new();
    let a = plain(&mut heap);
    let b = plain(&mut heap);
    heap.add_parent(a, b).unwrap();
    heap.add_parent(b, a).unwrap();
    let v = plain(&mut heap);
    heap.set_attr(b, &Key::Literal("k"), v);
    assert_eq!(heap.get_attr_lit(a, "k").unwrap(), Some(v));
    let err = heap.get_attr_lit(a, "missing").unwrap_err();
    assert!(err.is_internal());
    assert!(matches!(err, Error::Internal(message) if message == quest_core::error::PARENTS_CYCLE));
}

#[test]
fn downcasts() {
    let mut heap = Heap::new();
    let b = heap.new_object(Value::Boolean(Boolean::new(true)));
    let n = heap.new_object(Value::Number(Number::from_integer(3)));
    let t = text(&mut heap, "abc");
    let l = heap.new_object(Value::List(vec![b, n]));
    let f = heap.new_object(Value::RustFn(RustFn::new("f", NativeFn::Foreign(1))));
    assert_eq!(heap.downcast_boolean(b), Some(Boolean::new(true)));
    assert_eq!(heap.downcast_boolean(n), None);
    assert_eq!(heap.try_downcast_boolean(b).unwrap(), Boolean::new(true));
    assert!(matches!(
        heap.try_downcast_boolean(n),
        Err(Error::TypeError(TypeError::WrongType { expected: Kind::Boolean, got: Kind::Number }))
    ));
    assert_eq!(heap.downcast_number(n), Some(Number::from_integer(3)));
    assert!(matches!(
        heap.try_downcast_number(t),
        Err(Error::TypeError(TypeError::WrongType { expected: Kind::Number, got: Kind::Text }))
    ));
    assert_eq!(heap.downcast_text(t), Some(&"abc".to_string()));
    assert_eq!(heap.downcast_text(b), None);
    assert_eq!(heap.downcast_list(l), Some(&vec![b, n]));
    assert_eq!(heap.downcast_list(t), None);
    assert_eq!(heap.downcast_rustfn(f).unwrap().name(), "f");
    assert!(matches!(
        heap.try_downcast_rustfn(l),
        Err(Error::TypeError(TypeError::WrongType { expected: Kind::RustFn, got: Kind::List }))
    ));
    assert_eq!(heap.kind(l), Kind::List);
    assert!(heap.is_a(f, Kind::RustFn));
    assert!(!heap.is_a(f, Kind::Number));
    assert_eq!(Kind::RustFn.name(), "RustFn");
    assert!(matches!(heap.value(n), Value::Number(_)));
    heap.replace_value(n, Value::Number(Number::from_integer(4)));
    assert_eq!(heap.downcast_number(n), Some(Number::from_integer(4)));
}

#[test]
fn new_objects_have_the_prototype_of_their_type() {
    let mut heap = Heap::new();
    let before = Boolean::new(true).new_object(&mut heap);
    assert!(matches!(heap.parents(before), Parents::Empty));
    init(&mut heap);
    let mapping = heap.mapping(Kind::Boolean).unwrap();
    assert_eq!(Boolean::mapping(&heap), Some(mapping));
    let after = Boolean::new(true).new_object(&mut heap);
    assert_eq!(heap.list_of(heap.parents(after)).unwrap(), vec![mapping]);
    let number = Number::one().new_object(&mut heap);
    assert_eq!(heap.list_of(heap.parents(number)).unwrap(), vec![heap.mapping(Kind::Number).unwrap()]);
    assert_eq!(heap.mapping(Kind::Text), None);
    let t = text(&mut heap, "abc");
    assert!(matches!(heap.parents(t), Parents::Empty));
    heap.set_mapping(Kind::Text, t);
    assert_eq!(heap.mapping(Kind::Text), Some(t));
    let u = text(&mut heap, "def");
    assert_eq!(heap.list_of(heap.parents(u)).unwrap(), vec![t]);
}

#[test]
fn keys_of_an_object() {
    let mut heap = Heap::new();
    let root = plain(&mut heap);
    let p = child_of(&mut heap, vec![root]);
    let o = child_of(&mut heap, vec![p, root]);
    let v = plain(&mut heap);
    heap.set_attr(root, &Key::Literal("a"), v);
    heap.set_attr(root, &Key::Literal("b"), v);
    heap.set_attr(p, &Key::Literal("b"), v);
    heap.set_attr(p, &Key::Object(v), v);
    heap.set_attr(o, &Key::Literal("c"), v);
    heap.set_attr(o, &Key::Literal("a"), v);

    let names = |keys: Vec<StoredKey>| {
        let mut names: Vec<String> = keys
            .iter()
            .map(|k| match k {
                StoredKey::Name(s) => s.clone(),
                StoredKey::Identity(o) => format!("#{}", o.id()),
            })
            .collect();
        names.sort();
        names
    };
    assert_eq!(names(heap.mapping_keys(o, false)), vec!["a", "c"]);
    assert_eq!(names(heap.mapping_keys(o, true)), vec![format!("#{}", v.id()), "a".into(), "b".into(), "c".into()]);
    assert_eq!(names(heap.mapping_keys(root, true)), vec!["a", "b"]);
    assert_eq!(names(heap.mapping_keys(v, true)), Vec::<String>::new());
}

#[test]
fn call_attr_binds_the_receiver() {
    let mut heap = Heap::new();
    let mapping = plain(&mut heap);
    let f = RustFn::new("f", NativeFn::Foreign(7));
    let held = heap.new_object(Value::RustFn(f));
    heap.set_attr(mapping, &Key::Literal("f"), held);
    heap.set_attr(mapping, &Key::Literal("x"), mapping);
    let o = child_of(&mut heap, vec![mapping]);
    let a = plain(&mut heap);
    let b = plain(&mut heap);

    let call = heap.call_attr(o, &Key::Literal("f"), vec![a, b]).unwrap();
    assert_eq!(call.func.func, NativeFn::Foreign(7));
    assert_eq!(call.func.name, "f");
    assert_eq!(call.args.this, Some(o));
    assert_eq!(call.args.args, vec![a, b]);

    assert!(matches!(
        heap.call_attr(o, &Key::Literal("x"), vec![]),
        Err(Error::TypeError(TypeError::NotCallable { got: Kind::Pristine }))
    ));
    assert!(matches!(
        heap.call_attr(o, &Key::Literal("y"), vec![]),
        Err(Error::KeyError(KeyError::DoesntExist { attr: Key::Literal("y"), obj })) if obj == o
    ));
}

#[test]
fn a_write_through_one_handle_shows_through_every_handle() {
    let mut heap = Heap::new();
    let shared = plain(&mut heap);
    let left = child_of(&mut heap, vec![shared]);
    let right = child_of(&mut heap, vec![shared]);
    let alias = shared;
    let v = plain(&mut heap);
    heap.set_attr(alias, &Key::Literal("k"), v);
    assert_eq!(heap.get_attr_lit(shared, "k").unwrap(), Some(v));
    assert_eq!(heap.get_attr_lit(left, "k").unwrap(), Some(v));
    assert_eq!(heap.get_attr_lit(right, "k").unwrap(), Some(v));
}

fn native(heap: &mut Heap, name: &'static str, number: u64) -> Object {
    heap.new_object(Value::RustFn(RustFn::new(name, NativeFn::Foreign(number))))
}

#[test]
fn a_lookup_converts_what_holds_the_parents() {
    let mut heap = Heap::new();
    let holder = heap.new_object(Value::Boolean(Boolean::new(true)));
    let near = plain(&mut heap);
    let far = plain(&mut heap);
    let (v1, v2, w) = (plain(&mut heap), plain(&mut heap), plain(&mut heap));
    heap.set_attr(near, &Key::Literal("k"), v1);
    heap.set_attr(far, &Key::Literal("k"), v2);
    heap.set_attr(far, &Key::Literal("only"), w);
    let o = plain(&mut heap);
    heap.swap_parents(o, Parents::from_object(holder));
    let k = Key::Literal("k");

    // Nothing converts the holder.
    assert!(matches!(
        seek(&mut heap, o, &k, &vec![]),
        Err(Error::KeyError(KeyError::DoesntExist { attr: Key::Literal("@list"), obj })) if obj == holder
    ));
    heap.set_attr(holder, &Key::Literal("@list"), near);
    assert!(matches!(
        seek(&mut heap, o, &k, &vec![]),
        Err(Error::TypeError(TypeError::NotCallable { got: Kind::Pristine }))
    ));

    let f = native(&mut heap, "to_list", 3);
    heap.set_attr(holder, &Key::Literal("@list"), f);
    let cells = heap.len();
    match seek(&mut heap, o, &k, &vec![]).unwrap() {
        Sought::Convert { holder: h, call } => {
            assert_eq!(h, holder);
            assert_eq!(call.func.func, NativeFn::Foreign(3));
            assert_eq!(call.args.this, Some(holder));
            assert_eq!(call.args.args, vec![]);
        }
        other => panic!("{:?}", other),
    }

    // What the conversion may come to.
    let list = heap.new_object(Value::List(vec![near, far]));
    assert!(matches!(
        after_listing(&heap, holder, Ok(near), vec![]),
        Err(Error::TypeError(TypeError::ConversionReturnedBadType {
            func: "@list",
            expected: Kind::List,
            got: Kind::Pristine,
        }))
    ));
    assert!(matches!(
        after_listing(&heap, holder, Err(Error::Internal("broken")), vec![]),
        Err(Error::Internal("broken"))
    ));
    let listings = after_listing(&heap, holder, Ok(list), vec![]).unwrap();
    assert_eq!(listings.len(), 1);
    assert_eq!(listings[0].holder, holder);
    assert_eq!(listings[0].items, vec![near, far]);

    // The lookup with the list in the place of the holder.
    assert!(matches!(seek(&mut heap, o, &k, &listings), Ok(Sought::Settled(Some(v))) if v == v1));
    assert!(matches!(
        seek(&mut heap, o, &Key::Literal("only"), &listings),
        Ok(Sought::Settled(Some(v))) if v == w
    ));
    assert!(matches!(
        seek(&mut heap, o, &Key::Literal("none"), &listings),
        Ok(Sought::Settled(None))
    ));
    let name = text(&mut heap, "k");
    assert!(matches!(
        seek(&mut heap, o, &Key::Object(name), &listings),
        Ok(Sought::Settled(Some(v))) if v == v1
    ));

    // The store is as it was: the holder is no list, and a plain lookup
    // still says so.
    assert_eq!(heap.kind(holder), Kind::Boolean);
    assert_eq!(heap.downcast_boolean(holder), Some(Boolean::new(true)));
    assert_eq!(heap.len(), cells + 2);
    assert!(matches!(
        heap.get_attr(o, &k),
        Err(Error::TypeError(TypeError::WrongType { expected: Kind::List, got: Kind::Boolean }))
    ));

    // An attribute of its own needs no conversion.
    heap.set_attr(o, &k, w);
    assert!(matches!(seek(&mut heap, o, &k, &vec![]), Ok(Sought::Settled(Some(v))) if v == w));
}

#[test]
fn a_lookup_converts_every_holder_on_its_way() {
    let mut heap = Heap::new();
    let outer = heap.new_object(Value::Boolean(Boolean::new(false)));
    let inner = heap.new_object(Value::Number(Number::from_integer(3)));
    let f = native(&mut heap, "to_list", 0);
    heap.set_attr(outer, &Key::Literal("@list"), f);
    heap.set_attr(inner, &Key::Literal("@list"), f);
    let top = plain(&mut heap);
    let v = plain(&mut heap);
    heap.set_attr(top, &Key::Literal("k"), v);
    let middle = plain(&mut heap);
    heap.swap_parents(middle, Parents::from_object(inner));
    let o = plain(&mut heap);
    heap.swap_parents(o, Parents::from_object(outer));
    let k = Key::Literal("k");

    let first = match seek(&mut heap, o, &k, &vec![]).unwrap() {
        Sought::Convert { holder, .. } => holder,
        other => panic!("{:?}", other),
    };
    assert_eq!(first, outer);
    let list = heap.new_object(Value::List(vec![middle]));
    let listings = after_listing(&heap, outer, Ok(list), vec![]).unwrap();
    let second = match seek(&mut heap, o, &k, &listings).unwrap() {
        Sought::Convert { holder, .. } => holder,
        other => panic!("{:?}", other),
    };
    assert_eq!(second, inner);
    let list = heap.new_object(Value::List(vec![top]));
    let listings = after_listing(&heap, inner, Ok(list), listings).unwrap();
    assert_eq!(listings.len(), 2);
    assert_eq!((listings[0].holder, listings[1].holder), (outer, inner));
    assert!(matches!(seek(&mut heap, o, &k, &listings), Ok(Sought::Settled(Some(x))) if x == v));
    assert_eq!(heap.kind(outer), Kind::Boolean);
    assert_eq!(heap.kind(inner), Kind::Number);

    // A list that leads back to the object itself is a cycle.
    let back = heap.new_object(Value::List(vec![o]));
    let listings = after_listing(&heap, outer, Ok(back), vec![]).unwrap();
    assert!(matches!(
        seek(&mut heap, o, &k, &listings),
        Err(Error::Internal(quest_core::error::PARENTS_CYCLE))
    ));
}

#[test]
fn adding_a_parent_where_the_holder_is_no_list_calls_its_push() {
    let mut heap = Heap::new();
    let p = plain(&mut heap);
    let q = plain(&mut heap);

    // Held in place, and held by a list.
    let o = plain(&mut heap);
    assert!(matches!(append_parent(&mut heap, o, p), Ok(Added::Done)));
    assert!(matches!(append_parent(&mut heap, o, q), Ok(Added::Done)));
    assert_eq!(heap.list_of(heap.parents(o)).unwrap(), vec![p, q]);
    let list = heap.parents_to_object(o);
    assert!(matches!(append_parent(&mut heap, o, p), Ok(Added::Done)));
    assert_eq!(heap.downcast_list(list), Some(&vec![p, q, p]));

    // Held by something else.
    let holder = heap.new_object(Value::Boolean(Boolean::new(true)));
    let o = plain(&mut heap);
    heap.swap_parents(o, Parents::from_object(holder));
    assert!(matches!(
        append_parent(&mut heap, o, p),
        Err(Error::KeyError(KeyError::DoesntExist { attr: Key::Literal("push"), obj })) if obj == holder
    ));
    let f = native(&mut heap, "push", 9);
    heap.set_attr(holder, &Key::Literal("push"), f);
    let cells = heap.len();
    match append_parent(&mut heap, o, p).unwrap() {
        Added::Push(call) => {
            assert_eq!(call.func.func, NativeFn::Foreign(9));
            assert_eq!(call.args.this, Some(holder));
            assert_eq!(call.args.args, vec![p]);
        }
        other => panic!("{:?}", other),
    }
    assert_eq!(heap.len(), cells);
    assert_eq!(heap.downcast_boolean(holder), Some(Boolean::new(true)));
}

#[test]
fn bind_makes_the_call_of_what_was_found() {
    let mut heap = Heap::new();
    let o = plain(&mut heap);
    let a = plain(&mut heap);
    let f = native(&mut heap, "f", 5);
    let key = Key::Literal("f");
    let call = heap.bind(o, &key, Some(f), vec![a]).unwrap();
    assert_eq!(call.func.func, NativeFn::Foreign(5));
    assert_eq!((call.args.this, call.args.args), (Some(o), vec![a]));
    assert!(matches!(
        heap.bind(o, &key, Some(a), vec![]),
        Err(Error::TypeError(TypeError::NotCallable { got: Kind::Pristine }))
    ));
    assert!(matches!(
        heap.bind(o, &key, None, vec![]),
        Err(Error::KeyError(KeyError::DoesntExist { attr: Key::Literal("f"), obj })) if obj == o
    ));
}

#[test]
fn how_a_search_ends() {
    let mut heap = Heap::new();
    let holder = heap.new_object(Value::Number(Number::from_integer(1)));
    let p = plain(&mut heap);
    let v = plain(&mut heap);
    heap.set_attr(p, &Key::Literal("k"), v);
    let o = child_of(&mut heap, vec![p]);
    let k = Key::Literal("k");
    assert!(matches!(heap.resolve_attr(o, &k), Resolution::Found(x) if x == v));
    assert!(matches!(heap.resolve_attr(o, &Key::Literal("l")), Resolution::Missing));

    let q = plain(&mut heap);
    heap.swap_parents(q, Parents::from_object(holder));
    assert!(matches!(
        heap.resolve_attr(q, &k),
        Resolution::NotAList(h, Kind::Number) if h == holder
    ));
    let through = child_of(&mut heap, vec![p, q]);
    assert!(matches!(heap.resolve_attr(through, &k), Resolution::Found(x) if x == v));
    assert!(matches!(
        heap.resolve_attr(through, &Key::Literal("l")),
        Resolution::NotAList(h, Kind::Number) if h == holder
    ));

    // With the list that stands for the holder.
    let listings = vec![Listing { holder, items: vec![o] }];
    assert!(matches!(heap.resolve_listed(q, &k, &listings), Resolution::Found(x) if x == v));
    assert!(matches!(
        heap.resolve_listed(through, &Key::Literal("l"), &listings),
        Resolution::Missing
    ));
    // A later listing of the same holder is the one that counts.
    let listings = vec![
        Listing { holder, items: vec![o] },
        Listing { holder, items: vec![] },
    ];
    assert!(matches!(heap.resolve_listed(q, &k, &listings), Resolution::Missing));
    assert_eq!(heap.downcast_number(holder), Some(Number::from_integer(1)));

    let turn = child_of(&mut heap, vec![]);
    heap.add_parent(turn, turn).unwrap();
    assert!(matches!(heap.resolve_attr(turn, &k), Resolution::TooDeep));
}
