use quest_core::args::Args;
use quest_core::attrs::convert::{AtBoolean, AtNumber, AtText, Inspect};
use quest_core::attrs::operators::{
    BitAnd, BitAndAssign, BitOr, BitOrAssign, BitXor, BitXorAssign, Cmp, Eql, Not,
};
use quest_core::boolean::Boolean;
use quest_core::error::{Error, KeyError, TypeError};
use quest_core::heap::Heap;
use quest_core::impls::boolean as impls;
use quest_core::key::Key;
use quest_core::number::Number;
use quest_core::object::{Kind, Object, Value};
use quest_core::step::Step;
use quest_core::types::{init, ObjectType};

/// A store with the prototypes of the builtin types.
fn store() -> Heap {
    let mut heap = Heap::new();
    init(&mut heap);
    heap
}

fn boolean(heap: &mut Heap, b: bool) -> Object {
    Boolean::new(b).new_object(heap)
}

/// The result of a call that is complete, or that is complete once the
/// calls it hands back are made.
fn finish(heap: &mut Heap, step: Result<Step, Error>) -> Object {
    match step.unwrap() {
        Step::Done(obj) => obj,
        Step::Call(call) => {
            let next = call.func.call(heap, &call.args);
            finish(heap, next)
        }
        other => panic!("the call is not complete: {:?}", other),
    }
}

/// Makes the call `f` on a receiver and one argument, both booleans.
fn binary(f: fn(&mut Heap, Object, &Args) -> Result<Step, Error>, this: bool, rhs: bool) -> Boolean {
    let mut heap = store();
    let this = boolean(&mut heap, this);
    let rhs = boolean(&mut heap, rhs);
    let step = f(&mut heap, this, &Args::new(vec![rhs]));
    let obj = finish(&mut heap, step);
    heap.downcast_boolean(obj).unwrap()
}

/// Makes the call `f` on arguments that carry a boolean receiver and one
/// boolean argument.
fn binary_on(f: fn(&mut Heap, &Args) -> Result<Step, Error>, this: bool, rhs: bool) -> Boolean {
    let mut heap = store();
    let this = boolean(&mut heap, this);
    let rhs = boolean(&mut heap, rhs);
    let step = f(&mut heap, &Args::new_with_this(this, vec![rhs]));
    let obj = finish(&mut heap, step);
    heap.downcast_boolean(obj).unwrap()
}

fn unary(f: fn(&mut Heap, Object, &Args) -> Result<Step, Error>, this: bool) -> (Heap, Object) {
    let mut heap = store();
    let this = boolean(&mut heap, this);
    let step = f(&mut heap, this, &Args::new(vec![]));
    let obj = finish(&mut heap, step);
    (heap, obj)
}

fn unary_on(f: fn(&mut Heap, &Args) -> Result<Step, Error>, this: bool) -> (Heap, Object) {
    let mut heap = store();
    let this = boolean(&mut heap, this);
    let step = f(&mut heap, &Args::new_with_this(this, vec![]));
    let obj = finish(&mut heap, step);
    (heap, obj)
}

const TRUE: Boolean = Boolean(true);
const FALSE: Boolean = Boolean(false);

#[test]
fn at_num() {
    let (heap, obj) = unary(<Boolean as AtNumber>::call, true);
    assert_eq!(heap.downcast_number(obj), Some(Number::one()));
    let (heap, obj) = unary(<Boolean as AtNumber>::call, false);
    assert_eq!(heap.downcast_number(obj), Some(Number::zero()));
}

#[test]
fn boolean_at_num() {
    let (heap, obj) = unary_on(impls::at_num, true);
    assert_eq!(heap.downcast_number(obj), Some(Number::one()));
    let (heap, obj) = unary_on(impls::at_num, false);
    assert_eq!(heap.downcast_number(obj), Some(Number::zero()));
}

#[test]
fn at_text() {
    let (heap, obj) = unary(<Boolean as AtText>::call, true);
    assert_eq!(heap.downcast_text(obj), Some(&"true".to_string()));
    let (heap, obj) = unary(<Boolean as AtText>::call, false);
    assert_eq!(heap.downcast_text(obj), Some(&"false".to_string()));
}

#[test]
fn boolean_at_text() {
    let (heap, obj) = unary_on(impls::at_text, true);
    assert_eq!(heap.downcast_text(obj), Some(&"true".to_string()));
    let (heap, obj) = unary_on(impls::at_text, false);
    assert_eq!(heap.downcast_text(obj), Some(&"false".to_string()));
}

#[test]
fn at_bool() {
    let (heap, obj) = unary(<Boolean as AtBoolean>::call, true);
    assert_eq!(heap.downcast_boolean(obj), Some(TRUE));
    let (heap, obj) = unary(<Boolean as AtBoolean>::call, false);
    assert_eq!(heap.downcast_boolean(obj), Some(FALSE));
}

#[test]
fn boolean_at_bool() {
    let (heap, obj) = unary_on(impls::at_bool, true);
    assert_eq!(heap.downcast_boolean(obj), Some(TRUE));
    let (heap, obj) = unary_on(impls::at_bool, false);
    assert_eq!(heap.downcast_boolean(obj), Some(FALSE));
}

#[test]
fn clone() {
    let (heap, obj) = unary_on(impls::at_bool, true);
    assert_eq!(heap.downcast_boolean(obj), Some(TRUE));
    let (heap, obj) = unary_on(impls::at_bool, false);
    assert_eq!(heap.downcast_boolean(obj), Some(FALSE));

    let (heap, obj) = unary_on(impls::clone, true);
    assert_eq!(heap.downcast_boolean(obj), Some(TRUE));
    let (heap, obj) = unary_on(impls::clone, false);
    assert_eq!(heap.downcast_boolean(obj), Some(FALSE));
}

#[test]
fn eql() {
    assert_eq!(binary(<Boolean as Eql>::call, true, true), TRUE);
    assert_eq!(binary(<Boolean as Eql>::call, true, false), FALSE);
    assert_eq!(binary(<Boolean as Eql>::call, false, true), FALSE);
    assert_eq!(binary(<Boolean as Eql>::call, false, false), TRUE);
}

#[test]
fn boolean_eql() {
    assert_eq!(binary_on(impls::eql, true, true), TRUE);
    assert_eq!(binary_on(impls::eql, true, false), FALSE);
    assert_eq!(binary_on(impls::eql, false, true), FALSE);
    assert_eq!(binary_on(impls::eql, false, false), TRUE);
}

#[test]
fn not() {
    let (heap, obj) = unary(<Boolean as Not>::call, true);
    assert_eq!(heap.downcast_boolean(obj), Some(FALSE));
    let (heap, obj) = unary(<Boolean as Not>::call, false);
    assert_eq!(heap.downcast_boolean(obj), Some(TRUE));
}

#[test]
fn boolean_not() {
    let (heap, obj) = unary_on(impls::not, true);
    assert_eq!(heap.downcast_boolean(obj), Some(FALSE));
    let (heap, obj) = unary_on(impls::not, false);
    assert_eq!(heap.downcast_boolean(obj), Some(TRUE));
}

#[test]
fn bitand() {
    assert_eq!(binary(<Boolean as BitAnd>::call, true, true), TRUE);
    assert_eq!(binary(<Boolean as BitAnd>::call, true, false), FALSE);
    assert_eq!(binary(<Boolean as BitAnd>::call, false, true), FALSE);
    assert_eq!(binary(<Boolean as BitAnd>::call, false, false), FALSE);
}

#[test]
fn boolean_bitand() {
    assert_eq!(binary_on(impls::bitand, true, true), TRUE);
    assert_eq!(binary_on(impls::bitand, true, false), FALSE);
    assert_eq!(binary_on(impls::bitand, false, true), FALSE);
    assert_eq!(binary_on(impls::bitand, false, false), FALSE);
}

#[test]
fn bitor() {
    assert_eq!(binary(<Boolean as BitOr>::call, true, true), TRUE);
    assert_eq!(binary(<Boolean as BitOr>::call, true, false), TRUE);
    assert_eq!(binary(<Boolean as BitOr>::call, false, true), TRUE);
    assert_eq!(binary(<Boolean as BitOr>::call, false, false), FALSE);
}

#[test]
fn boolean_bitor() {
    assert_eq!(binary_on(impls::bitor, true, true), TRUE);
    assert_eq!(binary_on(impls::bitor, true, false), TRUE);
    assert_eq!(binary_on(impls::bitor, false, true), TRUE);
    assert_eq!(binary_on(impls::bitor, false, false), FALSE);
}

#[test]
fn bitxor() {
    assert_eq!(binary(<Boolean as BitXor>::call, true, true), FALSE);
    assert_eq!(binary(<Boolean as BitXor>::call, true, false), TRUE);
    assert_eq!(binary(<Boolean as BitXor>::call, false, true), TRUE);
    assert_eq!(binary(<Boolean as BitXor>::call, false, false), FALSE);
}

#[test]
fn boolean_bitxor() {
    assert_eq!(binary_on(impls::bitxor, true, true), FALSE);
    assert_eq!(binary_on(impls::bitxor, true, false), TRUE);
    assert_eq!(binary_on(impls::bitxor, false, true), TRUE);
    assert_eq!(binary_on(impls::bitxor, false, false), FALSE);
}

#[test]
fn boolean_values() {
    assert_eq!(Boolean::new(true), TRUE);
    assert!(TRUE.into_inner());
    assert!(!FALSE.into_inner());
    assert_eq!(Boolean::default(), FALSE);
    assert_eq!(Boolean::from(true), TRUE);
    assert!(bool::from(TRUE));
    assert_eq!(TRUE.not(), FALSE);
    assert_eq!(TRUE.bitand(FALSE), FALSE);
    assert_eq!(TRUE.bitor(FALSE), TRUE);
    assert_eq!(TRUE.bitxor(TRUE), FALSE);
    assert_eq!(TRUE.eql(TRUE), TRUE);
    assert_eq!(TRUE.eql(FALSE), FALSE);
    assert_eq!(TRUE.to_text(), "true");
    assert_eq!(FALSE.to_text(), "false");
    assert_eq!(FALSE.compare(TRUE), std::cmp::Ordering::Less);
    assert_eq!(TRUE.compare(FALSE), std::cmp::Ordering::Greater);
    assert_eq!(TRUE.compare(TRUE), std::cmp::Ordering::Equal);
    assert!(FALSE < TRUE);
}

#[test]
fn boolean_and_number_round_trip() {
    assert_eq!(Number::from(Boolean::from(true)), Number::one());
    assert_eq!(Number::from(Boolean::from(false)), Number::zero());
    assert_eq!(Boolean::from_number(Number::one()), TRUE);
    assert_eq!(Boolean::from_number(Number::zero()), FALSE);
    assert_eq!(Boolean::from_number(Number::from_integer(-7)), TRUE);
    assert_eq!(Boolean::from(Number::from_integer(-3)), TRUE);
    assert_eq!(Boolean::from(Number::one()), TRUE);
    assert_eq!(Boolean::from(Number::zero()), FALSE);
    assert_eq!(Boolean::from(Number::from_bits(0.0f64.to_bits())), FALSE);
    assert_eq!(Boolean::from(Number::from_bits((-0.0f64).to_bits())), FALSE);
    assert_eq!(Boolean::from(Number::from_bits(0.5f64.to_bits())), TRUE);
    assert_eq!(Boolean::from(Number::inf()), TRUE);
    for n in [Number::zero(), Number::one()] {
        assert_eq!(Number::from(Boolean::from(n)), n);
    }
    for n in [Number::from_integer(2), Number::from_integer(-1), Number::pi()] {
        assert_ne!(Number::from(Boolean::from(n)), n);
    }
    for b in [TRUE, FALSE] {
        assert_eq!(Boolean::from_number(b.to_number()), b);
    }
    assert_eq!(Boolean::from_number(Number::nan()), TRUE);
}

#[test]
fn boolean_inspect() {
    let (heap, obj) = unary(<Boolean as Inspect>::call, true);
    assert_eq!(heap.downcast_text(obj), Some(&"true".to_string()));
}

#[test]
fn boolean_compares() {
    let order = |this: bool, rhs: bool| {
        let mut heap = store();
        let this = boolean(&mut heap, this);
        let rhs = boolean(&mut heap, rhs);
        let step = <Boolean as Cmp>::call(&mut heap, this, &Args::new(vec![rhs]));
        let obj = finish(&mut heap, step);
        heap.downcast_number(obj).unwrap()
    };
    assert_eq!(order(false, true), Number::from_integer(-1));
    assert_eq!(order(true, true), Number::from_integer(0));
    assert_eq!(order(true, false), Number::from_integer(1));

    let mut heap = store();
    let this = boolean(&mut heap, true);
    let rhs = boolean(&mut heap, false);
    let step = impls::cmp(&mut heap, &Args::new_with_this(this, vec![rhs]));
    let obj = finish(&mut heap, step);
    assert_eq!(heap.downcast_number(obj), Some(Number::from_integer(1)));
}

#[test]
fn boolean_operators_in_place() {
    let assign = |f: fn(&mut Heap, Object, &Args) -> Result<Step, Error>, this: bool, rhs: bool| {
        let mut heap = store();
        let this = boolean(&mut heap, this);
        let rhs = boolean(&mut heap, rhs);
        let step = f(&mut heap, this, &Args::new(vec![rhs]));
        let obj = finish(&mut heap, step);
        assert!(obj.is_identical(this));
        assert_eq!(heap.downcast_boolean(rhs), Some(Boolean(!heap.downcast_boolean(rhs).unwrap().0).not()));
        heap.downcast_boolean(this).unwrap()
    };
    for l in [true, false] {
        for r in [true, false] {
            assert_eq!(assign(<Boolean as BitAndAssign>::call, l, r), Boolean(l & r));
            assert_eq!(assign(<Boolean as BitOrAssign>::call, l, r), Boolean(l | r));
            assert_eq!(assign(<Boolean as BitXorAssign>::call, l, r), Boolean(l ^ r));
        }
    }
}

#[test]
fn boolean_operators_in_place_on_itself() {
    for b in [true, false] {
        let mut heap = store();
        let this = boolean(&mut heap, b);
        let cells = heap.len();
        let step = <Boolean as BitAndAssign>::call(&mut heap, this, &Args::new(vec![this]));
        assert!(finish(&mut heap, step).is_identical(this));
        assert_eq!(heap.downcast_boolean(this), Some(Boolean(b)));
        let step = <Boolean as BitOrAssign>::call(&mut heap, this, &Args::new(vec![this]));
        assert!(finish(&mut heap, step).is_identical(this));
        assert_eq!(heap.downcast_boolean(this), Some(Boolean(b)));
        let step = <Boolean as BitXorAssign>::call(&mut heap, this, &Args::new(vec![this]));
        assert!(finish(&mut heap, step).is_identical(this));
        assert_eq!(heap.downcast_boolean(this), Some(FALSE));
        assert_eq!(heap.len(), cells);
    }
}

#[test]
fn boolean_equality_is_by_identity_first() {
    let mut heap = store();
    let plain = heap.new_object(Value::Pristine);
    let step = <Boolean as Eql>::call(&mut heap, plain, &Args::new(vec![plain]));
    let obj = finish(&mut heap, step);
    assert_eq!(heap.downcast_boolean(obj), Some(TRUE));

    let t = boolean(&mut heap, true);
    let step = <Boolean as Eql>::call(&mut heap, plain, &Args::new(vec![t]));
    assert!(matches!(
        step,
        Err(Error::TypeError(TypeError::WrongType { expected: Kind::Boolean, got: Kind::Pristine }))
    ));

    let one = Number::one().new_object(&mut heap);
    let step = <Boolean as Eql>::call(&mut heap, t, &Args::new(vec![one]));
    let obj = finish(&mut heap, step);
    assert_eq!(heap.downcast_boolean(obj), Some(FALSE));
}

#[test]
fn boolean_argument_errors() {
    let mut heap = store();
    let t = boolean(&mut heap, true);
    let step = <Boolean as BitAnd>::call(&mut heap, t, &Args::new(vec![]));
    assert!(matches!(step, Err(Error::KeyError(KeyError::OutOfBounds { idx: 0, len: 0 }))));
    let step = impls::bitand(&mut heap, &Args::new(vec![t]));
    assert!(matches!(step, Err(Error::KeyError(KeyError::NoThisSupplied))));
    let one = Number::one().new_object(&mut heap);
    let step = impls::not(&mut heap, &Args::new_with_this(one, vec![]));
    assert!(matches!(
        step,
        Err(Error::TypeError(TypeError::WrongType { expected: Kind::Boolean, got: Kind::Number }))
    ));
    let step = impls::eql(&mut heap, &Args::new_with_this(t, vec![]));
    let obj = finish(&mut heap, step);
    assert_eq!(heap.downcast_boolean(obj), Some(FALSE));
}

#[test]
fn boolean_argument_is_converted() {
    let mut heap = store();
    let t = boolean(&mut heap, true);
    let seven = Number::from_integer(7).new_object(&mut heap);
    let zero = Number::zero().new_object(&mut heap);
    for (arg, expected) in [(seven, TRUE), (zero, FALSE)] {
        let args = Args::new(vec![arg]);
        let (index, key) = match <Boolean as BitAnd>::call(&mut heap, t, &args) {
            Ok(Step::Convert { index, key, .. }) => (index, key),
            other => panic!("no conversion asked for: {:?}", other),
        };
        assert_eq!((index, key), (0, "@bool"));
        let call = heap.call_attr(arg, &Key::Literal(key), vec![]).unwrap();
        let step = call.func.call(&mut heap, &call.args);
        let converted = finish(&mut heap, step);
        let step = <Boolean as BitAnd>::call(&mut heap, t, &args.with_arg(index, converted));
        let obj = finish(&mut heap, step);
        assert_eq!(heap.downcast_boolean(obj), Some(expected));
    }
}

#[test]
fn boolean_objects_are_independent() {
    let mut heap = store();
    let a = boolean(&mut heap, true);
    let b = boolean(&mut heap, true);
    assert!(!a.is_identical(b));
    heap.set_attr(a, &Key::Literal("mark"), b);
    assert_eq!(heap.get_attr(a, &Key::Literal("mark")).unwrap(), Some(b));
    assert_eq!(heap.get_attr(b, &Key::Literal("mark")).unwrap(), None);
    let copy = heap.deep_clone(a);
    assert!(!copy.is_identical(a));
    assert_eq!(heap.downcast_boolean(copy), Some(TRUE));
    assert_eq!(heap.get_attr(copy, &Key::Literal("mark")).unwrap(), Some(b));
    heap.set_attr(copy, &Key::Literal("mark"), a);
    assert_eq!(heap.get_attr(a, &Key::Literal("mark")).unwrap(), Some(b));
}
