use quest_core::args::Args;
use quest_core::error::{Error, KeyError, TypeError};
use quest_core::heap::Heap;
use quest_core::impls::rustfn::{at_text, call};
use quest_core::number::Number;
use quest_core::object::{Kind, Value};
use quest_core::rustfn::{MathOp, NativeFn, RustFn};
use quest_core::step::Step;
use quest_core::types::{init, ObjectType};

#[test]
fn the_same_function_and_name_are_equal() {
    let a = RustFn::new("Number::+", NativeFn::NumberMath(MathOp::Add));
    let b = RustFn::new("Number::+", NativeFn::NumberMath(MathOp::Add));
    let c = RustFn::new("Number::-", NativeFn::NumberMath(MathOp::Sub));
    assert_eq!(a.eql(&a).unwrap(), true);
    assert_eq!(a.eql(&b).unwrap(), true);
    assert_eq!(b.eql(&a).unwrap(), true);
    assert_eq!(a.eql(&c).unwrap(), false);
    assert_eq!(a.name(), "Number::+");
}

#[test]
fn a_mismatched_name_and_function_is_an_internal_error() {
    let a = RustFn::new("Number::+", NativeFn::NumberMath(MathOp::Add));
    let same_function_other_name = RustFn::new("plus", NativeFn::NumberMath(MathOp::Add));
    let same_name_other_function = RustFn::new("Number::+", NativeFn::NumberMath(MathOp::Sub));
    assert!(matches!(a.eql(&same_function_other_name), Err(Error::Internal(_))));
    assert!(matches!(same_function_other_name.eql(&a), Err(Error::Internal(_))));
    assert!(matches!(a.eql(&same_name_other_function), Err(Error::Internal(_))));
    assert!(a.eql(&same_name_other_function).unwrap_err().is_internal());
    assert!(matches!(
        a.eql(&same_name_other_function),
        Err(Error::Internal(message)) if message == quest_core::error::NAME_MISMATCH
    ));
}

#[test]
fn the_text_of_a_native_function_is_its_name() {
    let mut heap = Heap::new();
    init(&mut heap);
    let f = RustFn::new("Number::+", NativeFn::NumberMath(MathOp::Add)).new_object(&mut heap);
    match at_text(&mut heap, &Args::new_with_this(f, vec![])).unwrap() {
        Step::Done(t) => assert_eq!(heap.downcast_text(t), Some(&"Number::+".to_string())),
        other => panic!("{:?}", other),
    }
    let n = Number::one().new_object(&mut heap);
    assert!(matches!(
        at_text(&mut heap, &Args::new_with_this(n, vec![])),
        Err(Error::TypeError(TypeError::WrongType { expected: Kind::RustFn, got: Kind::Number }))
    ));
    assert!(matches!(
        at_text(&mut heap, &Args::new(vec![])),
        Err(Error::KeyError(KeyError::NoThisSupplied))
    ));
}

#[test]
fn calling_a_native_function_object_calls_what_it_holds() {
    let mut heap = Heap::new();
    init(&mut heap);
    let f = RustFn::new("Number::+", NativeFn::NumberMath(MathOp::Add)).new_object(&mut heap);
    let two = Number::from_integer(2).new_object(&mut heap);
    let inner = match call(&mut heap, &Args::new_with_this(f, vec![two])).unwrap() {
        Step::Call(inner) => inner,
        other => panic!("{:?}", other),
    };
    assert_eq!(inner.func.func, NativeFn::NumberMath(MathOp::Add));
    assert_eq!(inner.args.this, None);
    assert_eq!(inner.args.args, vec![two]);
    // the function is called without a receiver, and says so
    assert!(matches!(
        inner.func.call(&mut heap, &inner.args),
        Err(Error::KeyError(KeyError::NoThisSupplied))
    ));
}

#[test]
fn a_function_of_the_embedding_program_comes_back_as_the_call_to_make() {
    let mut heap = Heap::new();
    let f = RustFn::new("mine", NativeFn::Foreign(42));
    let a = heap.new_object(Value::Pristine);
    let cells = heap.len();
    match f.call(&mut heap, &Args::new_with_this(a, vec![a])).unwrap() {
        Step::Call(inner) => {
            assert_eq!(inner.func.func, NativeFn::Foreign(42));
            assert_eq!(inner.func.name, "mine");
            assert_eq!(inner.args.this, Some(a));
            assert_eq!(inner.args.args, vec![a]);
        }
        other => panic!("{:?}", other),
    }
    assert_eq!(heap.len(), cells);
}
