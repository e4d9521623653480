use quest_core::args::Args;
use quest_core::boolean::Boolean;
use quest_core::error::{Error, KeyError, TypeError};
use quest_core::heap::Heap;
use quest_core::impls::pristine::{
    __call_attr__, __del_attr__, __get_attr__, __has_attr__, __id__, __keys__, __set_attr__,
    dot_get_attr, Pristine,
};
use quest_core::key::Key;
use quest_core::number::Number;
use quest_core::object::{Kind, Object, Value};
use quest_core::rustfn::{NativeFn, RustFn};
use quest_core::parents::Parents;
use quest_core::resume::after_seek;
use quest_core::step::{Sequel, Step};
use quest_core::types::{init, ObjectType};

fn store() -> Heap {
    let mut heap = Heap::new();
    init(&mut heap);
    heap
}

fn text(heap: &mut Heap, s: &str) -> Object {
    heap.new_object(Value::Text(s.to_string()))
}

fn done(step: Result<Step, Error>) -> Object {
    match step.unwrap() {
        Step::Done(obj) => obj,
        other => panic!("the call is not complete: {:?}", other),
    }
}

#[test]
fn id_is_the_identity_as_a_number() {
    let mut heap = store();
    let o = Pristine.new_object(&mut heap);
    let id = done(__id__(&mut heap, &Args::new_with_this(o, vec![])));
    assert_eq!(heap.downcast_number(id), Some(Number::from_integer(o.id() as i64)));
    assert!(matches!(
        __id__(&mut heap, &Args::new(vec![])),
        Err(Error::KeyError(KeyError::NoThisSupplied))
    ));
}

#[test]
fn attributes_through_the_protocol() {
    let mut heap = store();
    let o = Pristine.new_object(&mut heap);
    let k = text(&mut heap, "k");
    let v = Number::from_integer(5).new_object(&mut heap);

    let has = done(__has_attr__(&mut heap, &Args::new_with_this(o, vec![k])));
    assert_eq!(heap.downcast_boolean(has), Some(Boolean::new(false)));
    assert!(matches!(
        __get_attr__(&mut heap, &Args::new_with_this(o, vec![k])),
        Err(Error::KeyError(KeyError::DoesntExist { attr: Key::Object(a), obj })) if a == k && obj == o
    ));

    let set = done(__set_attr__(&mut heap, &Args::new_with_this(o, vec![k, v])));
    assert!(set.is_identical(v));
    assert_eq!(heap.get_attr_lit(o, "k").unwrap(), Some(v));
    let got = done(__get_attr__(&mut heap, &Args::new_with_this(o, vec![k])));
    assert!(got.is_identical(v));
    let got = done(dot_get_attr(&mut heap, &Args::new_with_this(o, vec![k])));
    assert!(got.is_identical(v));
    let has = done(__has_attr__(&mut heap, &Args::new_with_this(o, vec![k])));
    assert_eq!(heap.downcast_boolean(has), Some(Boolean::new(true)));

    let removed = done(__del_attr__(&mut heap, &Args::new_with_this(o, vec![k])));
    assert!(removed.is_identical(v));
    assert_eq!(heap.get_attr_lit(o, "k").unwrap(), None);
    assert!(matches!(
        __del_attr__(&mut heap, &Args::new_with_this(o, vec![k])),
        Err(Error::KeyError(KeyError::DoesntExist { .. }))
    ));
}

#[test]
fn attribute_functions_need_their_arguments() {
    let mut heap = store();
    let o = Pristine.new_object(&mut heap);
    let k = text(&mut heap, "k");
    let missing_first = |r: Result<Step, Error>| {
        matches!(r, Err(Error::KeyError(KeyError::OutOfBounds { idx: 0, len: 0 })))
    };
    assert!(missing_first(__get_attr__(&mut heap, &Args::new_with_this(o, vec![]))));
    assert!(missing_first(__set_attr__(&mut heap, &Args::new_with_this(o, vec![]))));
    assert!(missing_first(__has_attr__(&mut heap, &Args::new_with_this(o, vec![]))));
    assert!(missing_first(__del_attr__(&mut heap, &Args::new_with_this(o, vec![]))));
    assert!(missing_first(__call_attr__(&mut heap, &Args::new_with_this(o, vec![]))));
    assert!(matches!(
        __set_attr__(&mut heap, &Args::new_with_this(o, vec![k])),
        Err(Error::KeyError(KeyError::OutOfBounds { idx: 1, len: 1 }))
    ));
    assert!(matches!(
        __get_attr__(&mut heap, &Args::new(vec![k])),
        Err(Error::KeyError(KeyError::NoThisSupplied))
    ));
}

#[test]
fn call_attr_hands_back_the_call() {
    let mut heap = store();
    let n = Number::from_integer(5).new_object(&mut heap);
    let plus = text(&mut heap, "+");
    let two = Number::from_integer(2).new_object(&mut heap);
    let call = match __call_attr__(&mut heap, &Args::new_with_this(n, vec![plus, two])).unwrap() {
        Step::Call(call) => call,
        other => panic!("{:?}", other),
    };
    assert_eq!(call.args.this, Some(n));
    assert_eq!(call.args.args, vec![two]);
    let sum = done(call.func.call(&mut heap, &call.args));
    assert_eq!(heap.downcast_number(sum), Some(Number::from_integer(7)));

    let k = text(&mut heap, "PI");
    assert!(matches!(
        __call_attr__(&mut heap, &Args::new_with_this(n, vec![k])),
        Err(Error::TypeError(TypeError::NotCallable { got: Kind::Number }))
    ));
    let missing = text(&mut heap, "nothing");
    assert!(matches!(
        __call_attr__(&mut heap, &Args::new_with_this(n, vec![missing])),
        Err(Error::KeyError(KeyError::DoesntExist { .. }))
    ));
}

fn listed(heap: &Heap, list: Object) -> Vec<String> {
    let mut names: Vec<String> = heap
        .downcast_list(list)
        .unwrap()
        .iter()
        .map(|item| match heap.downcast_text(*item) {
            Some(s) => s.clone(),
            None => format!("#{}", item.id()),
        })
        .collect();
    names.sort();
    names
}

#[test]
fn keys_lists_own_keys_and_those_of_parents() {
    let mut heap = Heap::new();
    let p = heap.new_object(Value::Pristine);
    let o = heap.new_with_parent(Value::Pristine, vec![p]);
    let v = heap.new_object(Value::Pristine);
    heap.set_attr(p, &Key::Literal("inherited"), v);
    heap.set_attr(p, &Key::Literal("both"), v);
    heap.set_attr(o, &Key::Literal("own"), v);
    heap.set_attr(o, &Key::Literal("both"), v);
    heap.set_attr(o, &Key::Object(v), v);

    let own = vec![format!("#{}", v.id()), "both".to_string(), "own".to_string()];
    let all = vec![
        format!("#{}", v.id()),
        "both".to_string(),
        "inherited".to_string(),
        "own".to_string(),
    ];
    let list = done(__keys__(&mut heap, &Args::new_with_this(o, vec![])));
    assert_eq!(listed(&heap, list), own);
    let no = heap.new_object(Value::Boolean(Boolean::new(false)));
    let list = done(__keys__(&mut heap, &Args::new_with_this(o, vec![no])));
    assert_eq!(listed(&heap, list), own);
    let yes = heap.new_object(Value::Boolean(Boolean::new(true)));
    let list = done(__keys__(&mut heap, &Args::new_with_this(o, vec![yes])));
    assert_eq!(listed(&heap, list), all);

    // an argument that holds no boolean and has no `@bool` counts as false
    let number = heap.new_object(Value::Number(Number::one()));
    let list = done(__keys__(&mut heap, &Args::new_with_this(o, vec![number])));
    assert_eq!(listed(&heap, list), own);
    let not_callable = heap.new_object(Value::Pristine);
    heap.set_attr(not_callable, &Key::Literal("@bool"), v);
    let list = done(__keys__(&mut heap, &Args::new_with_this(o, vec![not_callable])));
    assert_eq!(listed(&heap, list), own);
    assert_eq!(listed(&heap, list).len(), 3);
    assert!(matches!(
        __keys__(&mut heap, &Args::new(vec![])),
        Err(Error::KeyError(KeyError::NoThisSupplied))
    ));
}

#[test]
fn inspect_shows_type_and_identity() {
    let mut heap = store();
    let o = Pristine.new_object(&mut heap);
    let n = Number::one().new_object(&mut heap);
    let shown = done(Pristine::qs___inspect__(&mut heap, o, &Args::new(vec![])));
    assert_eq!(heap.downcast_text(shown), Some(&format!("<Pristine:{}>", o.id())));
    let shown = done(Pristine::qs___inspect__(&mut heap, n, &Args::new(vec![])));
    assert_eq!(heap.downcast_text(shown), Some(&format!("<Number:{}>", n.id())));
}

#[test]
fn the_hash_of_a_plain_object_is_its_identity() {
    let mut heap = store();
    let o = Pristine.new_object(&mut heap);
    let hash = done(<Pristine as quest_core::attrs::misc::Hash>::call(&mut heap, o, &Args::new(vec![])));
    assert_eq!(heap.downcast_number(hash), Some(Number::from_integer(o.id() as i64)));
}

#[test]
fn every_object_has_the_root_functions() {
    let mut heap = store();
    let n = Number::from_integer(5).new_object(&mut heap);
    let call = heap.call_attr(n, &Key::Literal("__id__"), vec![]).unwrap();
    assert_eq!(call.func.func, NativeFn::PristineId);
    let id = done(call.func.call(&mut heap, &call.args));
    assert_eq!(heap.downcast_number(id), Some(Number::from_integer(n.id() as i64)));

    let call = heap.call_attr(n, &Key::Literal("__inspect__"), vec![]).unwrap();
    assert_eq!(call.func.func, NativeFn::NumberInspect);
    let f = RustFn::new("f", NativeFn::Foreign(1)).new_object(&mut heap);
    let call = heap.call_attr(f, &Key::Literal("__inspect__"), vec![]).unwrap();
    assert_eq!(call.func.func, NativeFn::PristineInspect);
    let shown = done(call.func.call(&mut heap, &call.args));
    assert_eq!(heap.downcast_text(shown), Some(&format!("<RustFn:{}>", f.id())));
}

#[test]
fn a_lookup_through_parents_that_are_no_list_is_asked_for() {
    let mut heap = store();
    let holder = Boolean::new(true).new_object(&mut heap);
    let o = heap.new_object(Value::Pristine);
    heap.swap_parents(o, Parents::from_object(holder));
    let k = heap.new_object(Value::Text("k".to_string()));
    let a = heap.new_object(Value::Pristine);
    let cells = heap.len();

    let asked = |step: Step| match step {
        Step::Seek { obj, attr: Key::Object(attr), then } => {
            assert_eq!((obj, attr), (o, k));
            then
        }
        other => panic!("{:?}", other),
    };
    let args = Args::new_with_this(o, vec![k, a]);
    assert!(matches!(asked(__get_attr__(&mut heap, &args).unwrap()), Sequel::Value));
    assert!(matches!(asked(dot_get_attr(&mut heap, &args).unwrap()), Sequel::Value));
    assert!(matches!(asked(__has_attr__(&mut heap, &args).unwrap()), Sequel::Presence));
    match asked(__call_attr__(&mut heap, &args).unwrap()) {
        Sequel::Call(rest) => assert_eq!(rest, vec![a]),
        other => panic!("{:?}", other),
    }
    assert_eq!(heap.len(), cells);

    // An attribute of its own is found without the parents.
    heap.set_attr(o, &Key::Literal("k"), a);
    assert!(matches!(__get_attr__(&mut heap, &args), Ok(Step::Done(v)) if v == a));
}

#[test]
fn what_a_lookup_comes_to_for_the_function_that_asked() {
    let mut heap = store();
    let o = heap.new_object(Value::Pristine);
    let v = heap.new_object(Value::Pristine);
    let f = heap.new_object(Value::RustFn(RustFn::new("f", NativeFn::Foreign(2))));
    let key = Key::Literal("k");

    assert!(matches!(
        after_seek(&mut heap, o, &key, Sequel::Value, Some(v)),
        Ok(Step::Done(x)) if x == v
    ));
    assert!(matches!(
        after_seek(&mut heap, o, &key, Sequel::Value, None),
        Err(Error::KeyError(KeyError::DoesntExist { attr: Key::Literal("k"), obj })) if obj == o
    ));
    for (found, truth) in [(Some(v), true), (None, false)] {
        match after_seek(&mut heap, o, &key, Sequel::Presence, found).unwrap() {
            Step::Done(b) => assert_eq!(heap.downcast_boolean(b), Some(Boolean::new(truth))),
            other => panic!("{:?}", other),
        }
    }
    match after_seek(&mut heap, o, &key, Sequel::Call(vec![v]), Some(f)).unwrap() {
        Step::Call(call) => {
            assert_eq!(call.func.func, NativeFn::Foreign(2));
            assert_eq!((call.args.this, call.args.args), (Some(o), vec![v]));
        }
        other => panic!("{:?}", other),
    }
    assert!(matches!(
        after_seek(&mut heap, o, &key, Sequel::Call(vec![]), Some(v)),
        Err(Error::TypeError(TypeError::NotCallable { got: Kind::Pristine }))
    ));
    assert!(matches!(
        after_seek(&mut heap, o, &key, Sequel::Call(vec![]), None),
        Err(Error::KeyError(KeyError::DoesntExist { attr: Key::Literal("k"), obj })) if obj == o
    ));
}
