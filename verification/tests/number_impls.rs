use quest_core::args::Args;
use quest_core::boolean::Boolean;
use quest_core::error::{Error, KeyError, TypeError, ValueError};
use quest_core::heap::Heap;
use quest_core::impls::number::{
    abs, arithmetic, arithmetic_assign, at_bool, at_num, at_text, bitnot, bitwise_assign,
    bitwise_op, ceil, clone, cmp, eql, floor, inspect, neg,
};
use quest_core::key::Key;
use quest_core::number::{NotAnInteger, Number};
use quest_core::object::{Kind, Object};
use quest_core::rustfn::{BitOp, MathOp};
use quest_core::step::{FloatOp, FloatTask, Step, Target};
use quest_core::types::{init, ObjectType};

fn store() -> Heap {
    let mut heap = Heap::new();
    init(&mut heap);
    heap
}

fn integer(heap: &mut Heap, v: i64) -> Object {
    Number::from_integer(v).new_object(heap)
}

fn float(heap: &mut Heap, v: f64) -> Object {
    Number::from_bits(v.to_bits()).new_object(heap)
}

fn done(step: Result<Step, Error>) -> Object {
    match step.unwrap() {
        Step::Done(obj) => obj,
        other => panic!("the call is not complete: {:?}", other),
    }
}

fn task(step: Result<Step, Error>) -> FloatTask {
    match step.unwrap() {
        Step::Float(task) => task,
        other => panic!("no task for the floating-point unit: {:?}", other),
    }
}

fn math(op: MathOp, l: i64, r: i64) -> Number {
    let mut heap = store();
    let l = integer(&mut heap, l);
    let r = integer(&mut heap, r);
    let obj = done(arithmetic(&mut heap, &Args::new_with_this(l, vec![r]), op));
    assert!(!obj.is_identical(l));
    heap.downcast_number(obj).unwrap()
}

#[test]
fn arithmetic_on_integers() {
    assert_eq!(math(MathOp::Add, 7, 5), Number::from_integer(12));
    assert_eq!(math(MathOp::Sub, 7, 5), Number::from_integer(2));
    assert_eq!(math(MathOp::Mul, 7, 5), Number::from_integer(35));
    assert_eq!(math(MathOp::Rem, -7, 5), Number::from_integer(-2));
    assert_eq!(math(MathOp::Pow, 7, 2), Number::from_integer(49));
    assert_eq!(math(MathOp::Div, 7, 0), Number::nan());
    assert_eq!(math(MathOp::Add, i64::MAX, 1), Number::from_integer(i64::MIN));
}

#[test]
fn arithmetic_that_needs_the_floating_point_unit() {
    let mut heap = store();
    let six = integer(&mut heap, 6);
    let three = integer(&mut heap, 3);
    let half = float(&mut heap, 0.5);
    let cells = heap.len();
    assert_eq!(
        task(arithmetic(&mut heap, &Args::new_with_this(six, vec![three]), MathOp::Div)),
        FloatTask {
            op: FloatOp::Math(MathOp::Div),
            lhs: Number::from_integer(6),
            rhs: Number::from_integer(3),
            target: Target::Result,
        }
    );
    assert_eq!(
        task(arithmetic(&mut heap, &Args::new_with_this(six, vec![half]), MathOp::Add)),
        FloatTask {
            op: FloatOp::Math(MathOp::Add),
            lhs: Number::from_integer(6),
            rhs: Number::from_bits(0.5f64.to_bits()),
            target: Target::Result,
        }
    );
    assert_eq!(
        task(arithmetic_assign(&mut heap, &Args::new_with_this(half, vec![six]), MathOp::Mul)),
        FloatTask {
            op: FloatOp::Math(MathOp::Mul),
            lhs: Number::from_bits(0.5f64.to_bits()),
            rhs: Number::from_integer(6),
            target: Target::Receiver(half),
        }
    );
    assert_eq!(task(neg(&mut heap, &Args::new_with_this(half, vec![]))).op, FloatOp::Neg);
    assert_eq!(task(abs(&mut heap, &Args::new_with_this(half, vec![]))).op, FloatOp::Abs);
    assert_eq!(task(floor(&mut heap, &Args::new_with_this(half, vec![]))).op, FloatOp::Floor);
    assert_eq!(task(ceil(&mut heap, &Args::new_with_this(half, vec![]))).op, FloatOp::Ceil);
    let truth = done(at_bool(&mut heap, &Args::new_with_this(half, vec![])));
    assert_eq!(heap.downcast_boolean(truth), Some(Boolean::new(true)));
    let float_zero = float(&mut heap, -0.0);
    let truth = done(at_bool(&mut heap, &Args::new_with_this(float_zero, vec![])));
    assert_eq!(heap.downcast_boolean(truth), Some(Boolean::new(false)));
    let cells = heap.len();
    assert_eq!(task(at_text(&mut heap, &Args::new_with_this(half, vec![]))).op, FloatOp::Text);
    assert_eq!(task(inspect(&mut heap, &Args::new_with_this(half, vec![]))).op, FloatOp::Text);
    assert_eq!(task(eql(&mut heap, &Args::new_with_this(half, vec![six]))).op, FloatOp::Eql);
    assert_eq!(task(cmp(&mut heap, &Args::new_with_this(six, vec![half]))).op, FloatOp::Cmp);
    assert_eq!(heap.len(), cells);
}

#[test]
fn remainder_without_a_value_is_an_error() {
    let mut heap = store();
    let five = integer(&mut heap, 5);
    let zero = integer(&mut heap, 0);
    let min = integer(&mut heap, i64::MIN);
    let minus_one = integer(&mut heap, -1);
    assert!(matches!(
        arithmetic(&mut heap, &Args::new_with_this(five, vec![zero]), MathOp::Rem),
        Err(Error::ValueError(ValueError::BadModulus))
    ));
    assert!(matches!(
        arithmetic_assign(&mut heap, &Args::new_with_this(min, vec![zero]), MathOp::Rem),
        Err(Error::ValueError(ValueError::BadModulus))
    ));
    assert_eq!(heap.downcast_number(min), Some(Number::from_integer(i64::MIN)));
    let r = done(arithmetic(&mut heap, &Args::new_with_this(min, vec![minus_one]), MathOp::Rem));
    assert_eq!(heap.downcast_number(r), Some(Number::zero()));
}

#[test]
fn arithmetic_in_place() {
    let mut heap = store();
    let n = integer(&mut heap, 6);
    let four = integer(&mut heap, 4);
    let cells = heap.len();
    let r = done(arithmetic_assign(&mut heap, &Args::new_with_this(n, vec![four]), MathOp::Add));
    assert!(r.is_identical(n));
    assert_eq!(heap.downcast_number(n), Some(Number::from_integer(10)));
    let r = done(arithmetic_assign(&mut heap, &Args::new_with_this(n, vec![four]), MathOp::Pow));
    assert!(r.is_identical(n));
    assert_eq!(heap.downcast_number(n), Some(Number::from_integer(10000)));
    let r = done(bitwise_assign(&mut heap, &Args::new_with_this(n, vec![four]), BitOp::Shr));
    assert!(r.is_identical(n));
    assert_eq!(heap.downcast_number(n), Some(Number::from_integer(625)));
    assert_eq!(heap.downcast_number(four), Some(Number::from_integer(4)));
    assert_eq!(heap.len(), cells);
}

#[test]
fn bitwise_on_integers_only() {
    let mut heap = store();
    let a = integer(&mut heap, 0b1100);
    let b = integer(&mut heap, 0b1010);
    let f = float(&mut heap, 2.5);
    let bits = 2.5f64.to_bits();
    let r = done(bitwise_op(&mut heap, &Args::new_with_this(a, vec![b]), BitOp::And));
    assert_eq!(heap.downcast_number(r), Some(Number::from_integer(0b1000)));
    let r = done(bitwise_op(&mut heap, &Args::new_with_this(a, vec![b]), BitOp::Or));
    assert_eq!(heap.downcast_number(r), Some(Number::from_integer(0b1110)));
    let r = done(bitwise_op(&mut heap, &Args::new_with_this(a, vec![b]), BitOp::Xor));
    assert_eq!(heap.downcast_number(r), Some(Number::from_integer(0b0110)));
    let r = done(bitwise_op(&mut heap, &Args::new_with_this(a, vec![b]), BitOp::Shl));
    assert_eq!(heap.downcast_number(r), Some(Number::from_integer(0b1100 << 10)));
    let r = done(bitnot(&mut heap, &Args::new_with_this(a, vec![])));
    assert_eq!(heap.downcast_number(r), Some(Number::from_integer(!0b1100)));

    let not_an_integer = |r: Result<Step, Error>| {
        matches!(r, Err(Error::ValueError(ValueError::NotAnInteger(NotAnInteger(b)))) if b == bits)
    };
    assert!(not_an_integer(bitwise_op(&mut heap, &Args::new_with_this(f, vec![b]), BitOp::And)));
    assert!(not_an_integer(bitwise_op(&mut heap, &Args::new_with_this(a, vec![f]), BitOp::And)));
    assert!(not_an_integer(bitwise_assign(&mut heap, &Args::new_with_this(a, vec![f]), BitOp::Or)));
    assert!(not_an_integer(bitnot(&mut heap, &Args::new_with_this(f, vec![]))));
    assert_eq!(heap.downcast_number(a), Some(Number::from_integer(0b1100)));
}

#[test]
fn unary_functions_on_integers() {
    let mut heap = store();
    let n = integer(&mut heap, -7);
    let r = done(neg(&mut heap, &Args::new_with_this(n, vec![])));
    assert_eq!(heap.downcast_number(r), Some(Number::from_integer(7)));
    let r = done(abs(&mut heap, &Args::new_with_this(n, vec![])));
    assert_eq!(heap.downcast_number(r), Some(Number::from_integer(7)));
    let r = done(floor(&mut heap, &Args::new_with_this(n, vec![])));
    assert_eq!(heap.downcast_number(r), Some(Number::from_integer(-7)));
    let r = done(ceil(&mut heap, &Args::new_with_this(n, vec![])));
    assert_eq!(heap.downcast_number(r), Some(Number::from_integer(-7)));
    let r = done(clone(&mut heap, &Args::new_with_this(n, vec![])));
    assert!(!r.is_identical(n));
    assert_eq!(heap.downcast_number(r), Some(Number::from_integer(-7)));
    let r = done(at_num(&mut heap, &Args::new_with_this(n, vec![])));
    assert!(r.is_identical(n));
    let r = done(at_bool(&mut heap, &Args::new_with_this(n, vec![])));
    assert_eq!(heap.downcast_boolean(r), Some(Boolean::new(true)));
    let zero = integer(&mut heap, 0);
    let r = done(at_bool(&mut heap, &Args::new_with_this(zero, vec![])));
    assert_eq!(heap.downcast_boolean(r), Some(Boolean::new(false)));
    let r = done(inspect(&mut heap, &Args::new_with_this(n, vec![])));
    assert_eq!(heap.downcast_text(r), Some(&"-7".to_string()));
}

#[test]
fn text_in_a_radix() {
    let mut heap = store();
    let n = integer(&mut heap, 255);
    let text = |heap: &mut Heap, radix: Option<i64>| {
        let args = match radix {
            Some(r) => {
                let r = integer(heap, r);
                Args::new_with_this(n, vec![r])
            }
            None => Args::new_with_this(n, vec![]),
        };
        at_text(heap, &args)
    };
    let shown = done(text(&mut heap, None));
    assert_eq!(heap.downcast_text(shown), Some(&"255".to_string()));
    for (radix, expected) in [(2, "11111111"), (8, "377"), (10, "255"), (16, "ff")] {
        let shown = done(text(&mut heap, Some(radix)));
        assert_eq!(heap.downcast_text(shown), Some(&expected.to_string()));
    }
    let shown = done(text(&mut heap, Some(0x1_0000_0010)));
    assert_eq!(heap.downcast_text(shown), Some(&"ff".to_string()));
    for radix in [0i64, 1, 3, 36, 37, -1] {
        let expected = radix as u32;
        assert!(matches!(
            text(&mut heap, Some(radix)),
            Err(Error::ValueError(ValueError::BadRadix(r))) if r == expected
        ));
    }

    let f = float(&mut heap, 2.5);
    let sixteen = integer(&mut heap, 16);
    assert!(matches!(
        at_text(&mut heap, &Args::new_with_this(f, vec![sixteen])),
        Err(Error::ValueError(ValueError::NotAnInteger(_)))
    ));
    assert_eq!(
        task(at_text(&mut heap, &Args::new_with_this(n, vec![f]))),
        FloatTask {
            op: FloatOp::Floor,
            lhs: Number::from_bits(2.5f64.to_bits()),
            rhs: Number::zero(),
            target: Target::Argument(0),
        }
    );
}

#[test]
fn equality_does_not_convert() {
    let mut heap = store();
    let one = integer(&mut heap, 1);
    let another = integer(&mut heap, 1);
    let two = integer(&mut heap, 2);
    let yes = Boolean::new(true).new_object(&mut heap);
    let r = done(eql(&mut heap, &Args::new_with_this(one, vec![another])));
    assert_eq!(heap.downcast_boolean(r), Some(Boolean::new(true)));
    let r = done(eql(&mut heap, &Args::new_with_this(one, vec![two])));
    assert_eq!(heap.downcast_boolean(r), Some(Boolean::new(false)));
    let r = done(eql(&mut heap, &Args::new_with_this(one, vec![yes])));
    assert_eq!(heap.downcast_boolean(r), Some(Boolean::new(false)));
    assert!(matches!(
        eql(&mut heap, &Args::new_with_this(one, vec![])),
        Err(Error::KeyError(KeyError::OutOfBounds { idx: 0, len: 0 }))
    ));
}

#[test]
fn comparison_gives_a_number() {
    let mut heap = store();
    let one = integer(&mut heap, 1);
    let two = integer(&mut heap, 2);
    let r = done(cmp(&mut heap, &Args::new_with_this(one, vec![two])));
    assert_eq!(heap.downcast_number(r), Some(Number::from_integer(-1)));
    let r = done(cmp(&mut heap, &Args::new_with_this(two, vec![one])));
    assert_eq!(heap.downcast_number(r), Some(Number::from_integer(1)));
    let r = done(cmp(&mut heap, &Args::new_with_this(two, vec![two])));
    assert_eq!(heap.downcast_number(r), Some(Number::from_integer(0)));
}

#[test]
fn other_arguments_are_converted_through_at_num() {
    let mut heap = store();
    let six = integer(&mut heap, 6);
    let yes = Boolean::new(true).new_object(&mut heap);
    let args = Args::new_with_this(six, vec![yes]);
    let (index, key) = match arithmetic(&mut heap, &args, MathOp::Add) {
        Ok(Step::Convert { index, key, .. }) => (index, key),
        other => panic!("no conversion asked for: {:?}", other),
    };
    assert_eq!((index, key), (0, "@num"));
    let call = heap.call_attr(yes, &Key::Literal(key), vec![]).unwrap();
    let converted = done(call.func.call(&mut heap, &call.args));
    let sum = done(arithmetic(&mut heap, &args.with_arg(index, converted), MathOp::Add));
    assert_eq!(heap.downcast_number(sum), Some(Number::from_integer(7)));

    assert!(matches!(
        arithmetic_assign(&mut heap, &args, MathOp::Add),
        Ok(Step::Convert { index: 0, key: "@num", to: Kind::Number, required: true })
    ));
    assert!(matches!(
        bitwise_op(&mut heap, &args, BitOp::And),
        Ok(Step::Convert { index: 0, key: "@num", to: Kind::Number, required: true })
    ));
    assert!(matches!(cmp(&mut heap, &args), Ok(Step::Convert { index: 0, key: "@num", to: Kind::Number, required: true })));
}

#[test]
fn receivers_and_arguments_are_checked() {
    let mut heap = store();
    let six = integer(&mut heap, 6);
    let yes = Boolean::new(true).new_object(&mut heap);
    assert!(matches!(
        arithmetic(&mut heap, &Args::new(vec![six]), MathOp::Add),
        Err(Error::KeyError(KeyError::NoThisSupplied))
    ));
    assert!(matches!(
        arithmetic(&mut heap, &Args::new_with_this(yes, vec![six]), MathOp::Add),
        Err(Error::TypeError(TypeError::WrongType { expected: Kind::Number, got: Kind::Boolean }))
    ));
    assert!(matches!(
        arithmetic(&mut heap, &Args::new_with_this(six, vec![]), MathOp::Add),
        Err(Error::KeyError(KeyError::OutOfBounds { idx: 0, len: 0 }))
    ));
    // in place, the argument is looked at before the receiver
    assert!(matches!(
        arithmetic_assign(&mut heap, &Args::new_with_this(yes, vec![]), MathOp::Add),
        Err(Error::KeyError(KeyError::OutOfBounds { idx: 0, len: 0 }))
    ));
    assert!(matches!(
        arithmetic_assign(&mut heap, &Args::new_with_this(yes, vec![six]), MathOp::Add),
        Err(Error::TypeError(TypeError::WrongType { expected: Kind::Number, got: Kind::Boolean }))
    ));
    assert!(matches!(
        neg(&mut heap, &Args::new_with_this(yes, vec![])),
        Err(Error::TypeError(TypeError::WrongType { expected: Kind::Number, got: Kind::Boolean }))
    ));
    assert!(matches!(
        at_num(&mut heap, &Args::new(vec![])),
        Err(Error::KeyError(KeyError::NoThisSupplied))
    ));
}

#[test]
fn number_methods_of_the_protocol() {
    let mut heap = store();
    let six = integer(&mut heap, 6);
    assert!(matches!(Number::qs_at_num(&six, &Args::new(vec![])), Ok(o) if o == six));
    assert_eq!(Number::from_integer(6).qs___inspect__(&Args::new(vec![])), Some("6".to_string()));
    assert_eq!(Number::nan().qs___inspect__(&Args::new(vec![])), None);
}
