use quest_core::args::Args;
use quest_core::binding::Binding;
use quest_core::error::{Error, KeyError};
use quest_core::heap::Heap;
use quest_core::key::{add_key, Key, StoredKey};
use quest_core::object::{Object, Value};
use quest_core::stream::{CharStream, Stream, StreamError};
use quest_core::text::{char_is_whitespace, chars_of, string_of, trimmed, without_separators};

fn objects(heap: &mut Heap, n: usize) -> Vec<Object> {
    (0..n).map(|_| heap.new_object(Value::Pristine)).collect()
}

#[test]
fn arguments() {
    let mut heap = Heap::new();
    let o = objects(&mut heap, 4);
    let args = Args::new_with_this(o[0], vec![o[1], o[2], o[3]]);
    assert_eq!(args.len(), 3);
    assert_eq!(args.this().unwrap(), o[0]);
    assert_eq!(args.arg(0).unwrap(), o[1]);
    assert_eq!(args.arg(2).unwrap(), o[3]);
    assert!(matches!(
        args.arg(3),
        Err(Error::KeyError(KeyError::OutOfBounds { idx: 3, len: 3 }))
    ));
    let rest = args.args_from(1).unwrap();
    assert_eq!(rest.this, None);
    assert_eq!(rest.args, vec![o[2], o[3]]);
    assert_eq!(args.args_from(0).unwrap().args, vec![o[1], o[2], o[3]]);
    assert_eq!(args.args_from(3).unwrap().args, vec![]);
    assert!(matches!(
        args.args_from(4),
        Err(Error::KeyError(KeyError::OutOfBounds { idx: 4, len: 3 }))
    ));
    let replaced = args.with_arg(1, o[0]);
    assert_eq!(replaced.this, Some(o[0]));
    assert_eq!(replaced.args, vec![o[1], o[0], o[3]]);
    assert_eq!(args.args, vec![o[1], o[2], o[3]]);
    let copy = args.duplicate();
    assert_eq!((copy.this, copy.args), (Some(o[0]), vec![o[1], o[2], o[3]]));

    let bare = Args::new(vec![o[1]]);
    assert!(matches!(bare.this(), Err(Error::KeyError(KeyError::NoThisSupplied))));
    assert_eq!(bare.arg(0).unwrap(), o[1]);
}

#[test]
fn stack_frames() {
    let mut heap = Heap::new();
    let o = objects(&mut heap, 3);
    let mut binding = Binding::new();
    assert_eq!(binding.depth(), 0);
    assert_eq!(binding.current(), None);
    assert_eq!(binding.leave(), None);

    let outer = binding.new_stackframe(&mut heap, &Args::new_with_this(o[0], vec![o[1], o[2]]));
    assert_eq!(binding.depth(), 1);
    assert_eq!(binding.current(), Some(outer));
    let list = heap.get_attr_lit(outer, "__args__").unwrap().unwrap();
    assert_eq!(heap.downcast_list(list), Some(&vec![o[1], o[2]]));
    assert_eq!(heap.get_attr_lit(outer, "__this__").unwrap(), Some(o[0]));

    let inner = binding.new_stackframe(&mut heap, &Args::new(vec![]));
    assert_eq!(binding.depth(), 2);
    assert_eq!(binding.current(), Some(inner));
    assert!(!inner.is_identical(outer));
    let list = heap.get_attr_lit(inner, "__args__").unwrap().unwrap();
    assert_eq!(heap.downcast_list(list), Some(&vec![]));
    assert_eq!(heap.get_attr_lit(inner, "__this__").unwrap(), None);

    assert_eq!(binding.leave(), Some(inner));
    assert_eq!(binding.current(), Some(outer));
    assert_eq!(binding.leave(), Some(outer));
    assert_eq!(binding.depth(), 0);
}

#[test]
fn stored_keys() {
    let mut heap = Heap::new();
    let o = objects(&mut heap, 2);
    let t = heap.new_object(Value::Text("name".to_string()));
    let name = StoredKey::Name("name".to_string());
    assert!(name.same(&StoredKey::Name("name".to_string())));
    assert!(!name.same(&StoredKey::Name("other".to_string())));
    assert!(!name.same(&StoredKey::Identity(o[0])));
    assert!(StoredKey::Identity(o[0]).same(&StoredKey::Identity(o[0])));
    assert!(!StoredKey::Identity(o[0]).same(&StoredKey::Identity(o[1])));
    assert!(name.duplicate().same(&name));
    assert!(heap.stored_key(&Key::Literal("name")).same(&name));
    assert!(heap.stored_key(&Key::Object(t)).same(&name));
    assert!(heap.stored_key(&Key::Object(o[1])).same(&StoredKey::Identity(o[1])));

    let mut keys = vec![];
    add_key(&mut keys, &name);
    add_key(&mut keys, &StoredKey::Identity(o[0]));
    add_key(&mut keys, &StoredKey::Name("name".to_string()));
    add_key(&mut keys, &StoredKey::Name("other".to_string()));
    add_key(&mut keys, &StoredKey::Identity(o[0]));
    assert_eq!(keys.len(), 3);
    assert!(keys[0].same(&name));
    assert!(keys[1].same(&StoredKey::Identity(o[0])));
    assert!(keys[2].same(&StoredKey::Name("other".to_string())));
}

#[test]
fn text_helpers() {
    assert_eq!(chars_of("añb"), vec!['a', 'ñ', 'b']);
    assert_eq!(string_of(&vec!['a', 'ñ', 'b']), "añb");
    assert_eq!(string_of(&trimmed(&chars_of("  a b\t\n"))), "a b");
    assert_eq!(string_of(&trimmed(&chars_of("\u{a0}\u{3000}x\u{2009}"))), "x");
    assert_eq!(string_of(&trimmed(&chars_of(" \t "))), "");
    assert_eq!(string_of(&trimmed(&chars_of(""))), "");
    assert_eq!(string_of(&without_separators(&chars_of("_1__000_"))), "1000");
    for code in 0..0x3100u32 {
        if let Some(c) = char::from_u32(code) {
            assert_eq!(char_is_whitespace(c), c.is_whitespace(), "{:x}", code);
        }
    }
    for text in ["", " ", "  12  ", "\n\t12", "12\u{85}", "a b", "\u{1680}\u{2028}x y\u{205f}"] {
        assert_eq!(string_of(&trimmed(&chars_of(text))), text.trim());
    }
}

#[test]
fn streams() {
    let mut stream = CharStream::new("let x = 1");
    assert_eq!(stream.starts_with("let"), Ok(true));
    assert_eq!(stream.starts_with("x"), Ok(false));
    assert_eq!(stream.starts_with(""), Ok(true));
    assert_eq!(stream.next_if_starts_with("var"), Ok(false));
    assert_eq!(stream.starts_with("let"), Ok(true));
    assert_eq!(stream.next_if_starts_with("let"), Ok(true));
    assert_eq!(stream.starts_with("let"), Ok(false));
    assert_eq!(stream.next(), Some(' '));
    assert_eq!(stream.next_if_starts_with("x = 1 and more"), Ok(false));
    assert_eq!(stream.next_if_starts_with("x ="), Ok(true));
    assert_eq!(stream.skip(3), Err(StreamError::PastEnd));
    assert_eq!(stream.skip(1), Ok(()));
    assert_eq!(stream.next(), Some('1'));
    assert_eq!(stream.next(), None);
    assert_eq!(stream.starts_with(""), Ok(true));
    assert_eq!(stream.starts_with("1"), Ok(false));
    assert_eq!(stream.skip(0), Ok(()));
}

#[test]
fn next_if_starts_with_moves_over_what_it_found() {
    let mut stream = CharStream::new("añb=1");
    assert_eq!(stream.next_if_starts_with("añb=12"), Ok(false));
    assert_eq!(stream.next_if_starts_with("b"), Ok(false));
    assert_eq!(stream.next(), Some('a'));
    assert_eq!(stream.next_if_starts_with("ñb"), Ok(true));
    assert_eq!(stream.next_if_starts_with(""), Ok(true));
    assert_eq!(stream.next(), Some('='));
    assert_eq!(stream.next_if_starts_with("1"), Ok(true));
    assert_eq!(stream.next_if_starts_with("1"), Ok(false));
    assert_eq!(stream.next_if_starts_with(""), Ok(true));
    assert_eq!(stream.next(), None);
}
