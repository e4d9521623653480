//! The builtin types as object types: the prototype object of each, the
//! table of members it starts with, and how a native value becomes an
//! object.

use vstd::prelude::*;
use crate::boolean::Boolean;
use crate::heap::{Heap, Mappings};
use crate::impls::pristine::Pristine;
use crate::key::{Key, KeyId, Literal};
use crate::number::{Inner, Number, E_BITS, INF_BITS, NAN_BITS, PI_BITS};
use crate::object::{Kind, Object, Value, ValueView};
use crate::rustfn::{BitOp, MathOp, NativeFn, RustFn};
use crate::store::CellView;

verus! {

/// What a member of a prototype object is.
#[derive(Debug, Clone, Copy)]
pub enum MemberValue {
    /// A native function.
    Function(RustFn),
    /// A number.
    Constant(Number),
}

/// A member that a prototype object starts with: a key and what is
/// stored under it.
#[derive(Debug, Clone, Copy)]
pub struct Member {
    pub key: Literal,
    pub value: MemberValue,
}

impl Member {
    /// The payload of the object that holds the member.
    pub open spec fn payload(self) -> ValueView {
        match self.value {
            MemberValue::Function(f) => ValueView::RustFn(f),
            MemberValue::Constant(n) => ValueView::Number(n),
        }
    }

    /// The member under `key` that is the native function `func`, named
    /// `name`.
    pub open spec fn spec_function(key: Literal, name: Literal, func: NativeFn) -> Member {
        Member { key, value: MemberValue::Function(RustFn { name, func }) }
    }

    /// The member under `key` that is the native function `func`, named
    /// `name`.
    #[verifier::when_used_as_spec(spec_function)]
    pub fn function(key: Literal, name: Literal, func: NativeFn) -> (m: Member)
        ensures
            m == Member::spec_function(key, name, func),
    {
        Member { key, value: MemberValue::Function(RustFn::new(name, func)) }
    }

    /// The member under `key` that is the number `n`.
    pub open spec fn spec_constant(key: Literal, n: Number) -> Member {
        Member { key, value: MemberValue::Constant(n) }
    }

    /// The member under `key` that is the number `n`.
    #[verifier::when_used_as_spec(spec_constant)]
    pub fn constant(key: Literal, n: Number) -> (m: Member)
        ensures
            m == Member::spec_constant(key, n),
    {
        Member { key, value: MemberValue::Constant(n) }
    }
}

/// The store once the members of `table` are installed on `mapping`, in
/// order: for each member a new object that holds it, stored under the
/// key of the member in the own table of `mapping`. A later member takes
/// the place of an earlier one with the same key.
pub open spec fn installed(
    store: Seq<CellView>,
    mappings: Mappings,
    mapping: Object,
    table: Seq<Member>,
) -> Seq<CellView>
    decreases table.len(),
{
    if table.len() == 0 {
        store
    } else {
        let s = installed(store, mappings, mapping, table.drop_last());
        let m = table.last();
        let held = s.push(
            CellView {
                value: m.payload(),
                attrs: Map::empty(),
                parents: mappings.parents_for(m.payload().kind()),
            },
        );
        held.update(
            mapping.id as int,
            CellView {
                attrs: held[mapping.id as int].attrs.insert(
                    KeyId::Name(m.key@),
                    Object { id: s.len() as usize },
                ),
                ..held[mapping.id as int]
            },
        )
    }
}

/// Installing members adds one cell for each.
pub proof fn lemma_installed_len(
    store: Seq<CellView>,
    mappings: Mappings,
    mapping: Object,
    table: Seq<Member>,
)
    requires
        mapping.id < store.len(),
    ensures
        installed(store, mappings, mapping, table).len() == store.len() + table.len(),
    decreases table.len(),
{
    if table.len() > 0 {
        lemma_installed_len(store, mappings, mapping, table.drop_last());
    }
}

/// What is installed is found: the prototype object has, under the key of
/// a member that no later member of the table shares, the object that was
/// made for that member, and that object holds the member.
pub proof fn lemma_installed_member(
    store: Seq<CellView>,
    mappings: Mappings,
    mapping: Object,
    table: Seq<Member>,
    i: int,
)
    requires
        mapping.id < store.len(),
        store.len() + table.len() <= usize::MAX,
        0 <= i < table.len(),
        forall|j: int| i < j < table.len() ==> (#[trigger] table[j]).key@ != table[i].key@,
    ensures
        ({
            let after = installed(store, mappings, mapping, table);
            let key = KeyId::Name(table[i].key@);
            &&& after.len() == store.len() + table.len()
            &&& after[mapping.id as int].attrs.dom().contains(key)
            &&& after[mapping.id as int].attrs[key].id == store.len() + i
            &&& after[store.len() + i].value == table[i].payload()
        }),
    decreases table.len(),
{
    let init = table.drop_last();
    lemma_installed_len(store, mappings, mapping, init);
    lemma_installed_len(store, mappings, mapping, table);
    if i < table.len() - 1 {
        assert(init[i] == table[i]);
        assert forall|j: int| i < j < init.len() implies (#[trigger] init[j]).key@
            != init[i].key@ by {
            assert(init[j] == table[j]);
        }
        lemma_installed_member(store, mappings, mapping, init, i);
        assert(table.last() == table[table.len() - 1]);
        assert(table.last().key@ != table[i].key@);
    }
}

/// Makes an object for each member of `table` and stores it under the key
/// of the member in the own table of `mapping`.
pub fn install(heap: &mut Heap, mapping: Object, table: &Vec<Member>)
    requires
        old(heap).wf(),
        old(heap).has(mapping),
    ensures
        final(heap).wf(),
        final(heap).mappings() == old(heap).mappings(),
        final(heap)@ == installed(old(heap)@, old(heap).mappings(), mapping, table@),
        final(heap)@.len() == old(heap)@.len() + table@.len(),
{
    let mut i: usize = 0;
    assert(table@.take(0) =~= Seq::<Member>::empty());
    while i < table.len()
        invariant
            heap.wf(),
            heap.has(mapping),
            heap.mappings() == old(heap).mappings(),
            i <= table.len(),
            heap@ == installed(old(heap)@, old(heap).mappings(), mapping, table@.take(i as int)),
            heap@.len() == old(heap)@.len() + i,
        decreases table.len() - i,
    {
        let member = table[i];
        proof {
            assert(table@.take(i as int + 1).drop_last() =~= table@.take(i as int));
            assert(table@.take(i as int + 1).last() == member);
        }
        let value = match member.value {
            MemberValue::Function(f) => Value::RustFn(f),
            MemberValue::Constant(n) => Value::Number(n),
        };
        let held = heap.new_object(value);
        heap.set_attr(mapping, &Key::Literal(member.key), held);
        i += 1;
    }
    assert(table@.take(table.len() as int) =~= table@);
}

/// The members that the root prototype starts with, which every object has through it.
pub open spec fn pristine_members() -> Seq<Member> {
    seq![
        Member::function("__id__", "Pristine::__id__", NativeFn::PristineId),
        Member::function("__keys__", "Pristine::__keys__", NativeFn::PristineKeys),
        Member::function("__call_attr__", "Pristine::__call_attr__", NativeFn::PristineCallAttr),
        Member::function("__get_attr__", "Pristine::__get_attr__", NativeFn::PristineGetAttr),
        Member::function("__set_attr__", "Pristine::__set_attr__", NativeFn::PristineSetAttr),
        Member::function("__has_attr__", "Pristine::__has_attr__", NativeFn::PristineHasAttr),
        Member::function("__del_attr__", "Pristine::__del_attr__", NativeFn::PristineDelAttr),
        Member::function("__inspect__", "Pristine::__inspect__", NativeFn::PristineInspect),
        Member::function("::", "Pristine::__get_attr__", NativeFn::PristineGetAttr),
        Member::function(".", "Pristine::.", NativeFn::PristineDotGetAttr),
        Member::function(".=", "Pristine::__set_attr__", NativeFn::PristineSetAttr),
    ]
}

/// The members that the root prototype starts with, which every object has through it.
pub fn pristine_table() -> (table: Vec<Member>)
    ensures
        table@ == pristine_members(),
{
    let mut table: Vec<Member> = Vec::new();
    table.push(Member::function("__id__", "Pristine::__id__", NativeFn::PristineId));
    table.push(Member::function("__keys__", "Pristine::__keys__", NativeFn::PristineKeys));
    table.push(Member::function("__call_attr__", "Pristine::__call_attr__", NativeFn::PristineCallAttr));
    table.push(Member::function("__get_attr__", "Pristine::__get_attr__", NativeFn::PristineGetAttr));
    table.push(Member::function("__set_attr__", "Pristine::__set_attr__", NativeFn::PristineSetAttr));
    table.push(Member::function("__has_attr__", "Pristine::__has_attr__", NativeFn::PristineHasAttr));
    table.push(Member::function("__del_attr__", "Pristine::__del_attr__", NativeFn::PristineDelAttr));
    table.push(Member::function("__inspect__", "Pristine::__inspect__", NativeFn::PristineInspect));
    table.push(Member::function("::", "Pristine::__get_attr__", NativeFn::PristineGetAttr));
    table.push(Member::function(".", "Pristine::.", NativeFn::PristineDotGetAttr));
    table.push(Member::function(".=", "Pristine::__set_attr__", NativeFn::PristineSetAttr));
    assert(table@ =~= pristine_members());
    table
}

/// The members that the prototype of booleans starts with.
pub open spec fn boolean_members() -> Seq<Member> {
    seq![
        Member::function("__inspect__", "Boolean::__inspect__", NativeFn::BooleanInspect),
        Member::function("@text", "Boolean::@text", NativeFn::BooleanAtText),
        Member::function("@num", "Boolean::@num", NativeFn::BooleanAtNum),
        Member::function("@bool", "Boolean::@bool", NativeFn::BooleanAtBool),
        Member::function("clone", "Boolean::clone", NativeFn::BooleanClone),
        Member::function("==", "Boolean::==", NativeFn::BooleanEql),
        Member::function("!", "Boolean::!", NativeFn::BooleanNot),
        Member::function("&", "Boolean::&", NativeFn::BooleanBitAnd),
        Member::function("&=", "Boolean::&=", NativeFn::BooleanBitAndAssign),
        Member::function("|", "Boolean::|", NativeFn::BooleanBitOr),
        Member::function("|=", "Boolean::|=", NativeFn::BooleanBitOrAssign),
        Member::function("^", "Boolean::^", NativeFn::BooleanBitXor),
        Member::function("^=", "Boolean::^=", NativeFn::BooleanBitXorAssign),
        Member::function("<=>", "Boolean::<=>", NativeFn::BooleanCmp),
    ]
}

/// The members that the prototype of booleans starts with.
pub fn boolean_table() -> (table: Vec<Member>)
    ensures
        table@ == boolean_members(),
{
    let mut table: Vec<Member> = Vec::new();
    table.push(Member::function("__inspect__", "Boolean::__inspect__", NativeFn::BooleanInspect));
    table.push(Member::function("@text", "Boolean::@text", NativeFn::BooleanAtText));
    table.push(Member::function("@num", "Boolean::@num", NativeFn::BooleanAtNum));
    table.push(Member::function("@bool", "Boolean::@bool", NativeFn::BooleanAtBool));
    table.push(Member::function("clone", "Boolean::clone", NativeFn::BooleanClone));
    table.push(Member::function("==", "Boolean::==", NativeFn::BooleanEql));
    table.push(Member::function("!", "Boolean::!", NativeFn::BooleanNot));
    table.push(Member::function("&", "Boolean::&", NativeFn::BooleanBitAnd));
    table.push(Member::function("&=", "Boolean::&=", NativeFn::BooleanBitAndAssign));
    table.push(Member::function("|", "Boolean::|", NativeFn::BooleanBitOr));
    table.push(Member::function("|=", "Boolean::|=", NativeFn::BooleanBitOrAssign));
    table.push(Member::function("^", "Boolean::^", NativeFn::BooleanBitXor));
    table.push(Member::function("^=", "Boolean::^=", NativeFn::BooleanBitXorAssign));
    table.push(Member::function("<=>", "Boolean::<=>", NativeFn::BooleanCmp));
    assert(table@ =~= boolean_members());
    table
}

/// The members that the prototype of numbers starts with.
pub open spec fn number_members() -> Seq<Member> {
    seq![
        Member::constant("PI", Number(Inner::Float(PI_BITS))),
        Member::constant("E", Number(Inner::Float(E_BITS))),
        Member::constant("NAN", Number(Inner::Float(NAN_BITS))),
        Member::constant("INF", Number(Inner::Float(INF_BITS))),
        Member::function("@text", "Number::@text", NativeFn::NumberAtText),
        Member::function("__inspect__", "Number::__inspect__", NativeFn::NumberInspect),
        Member::function("@num", "Number::@num", NativeFn::NumberAtNum),
        Member::function("@bool", "Number::@bool", NativeFn::NumberAtBool),
        Member::function("clone", "Number::clone", NativeFn::NumberClone),
        Member::function("+", "Number::+", NativeFn::NumberMath(MathOp::Add)),
        Member::function("+=", "Number::+=", NativeFn::NumberMathAssign(MathOp::Add)),
        Member::function("-", "Number::-", NativeFn::NumberMath(MathOp::Sub)),
        Member::function("-=", "Number::-=", NativeFn::NumberMathAssign(MathOp::Sub)),
        Member::function("*", "Number::*", NativeFn::NumberMath(MathOp::Mul)),
        Member::function("*=", "Number::*=", NativeFn::NumberMathAssign(MathOp::Mul)),
        Member::function("/", "Number::/", NativeFn::NumberMath(MathOp::Div)),
        Member::function("/=", "Number::/=", NativeFn::NumberMathAssign(MathOp::Div)),
        Member::function("%", "Number::%", NativeFn::NumberMath(MathOp::Rem)),
        Member::function("%=", "Number::%=", NativeFn::NumberMathAssign(MathOp::Rem)),
        Member::function("**", "Number::**", NativeFn::NumberMath(MathOp::Pow)),
        Member::function("**=", "Number::**=", NativeFn::NumberMathAssign(MathOp::Pow)),
        Member::function("&", "Number::&", NativeFn::NumberBitwise(BitOp::And)),
        Member::function("&=", "Number::&=", NativeFn::NumberBitwiseAssign(BitOp::And)),
        Member::function("|", "Number::|", NativeFn::NumberBitwise(BitOp::Or)),
        Member::function("|=", "Number::|=", NativeFn::NumberBitwiseAssign(BitOp::Or)),
        Member::function("^", "Number::^", NativeFn::NumberBitwise(BitOp::Xor)),
        Member::function("^=", "Number::^=", NativeFn::NumberBitwiseAssign(BitOp::Xor)),
        Member::function("<<", "Number::<<", NativeFn::NumberBitwise(BitOp::Shl)),
        Member::function("<<=", "Number::<<=", NativeFn::NumberBitwiseAssign(BitOp::Shl)),
        Member::function(">>", "Number::>>", NativeFn::NumberBitwise(BitOp::Shr)),
        Member::function(">>=", "Number::>>=", NativeFn::NumberBitwiseAssign(BitOp::Shr)),
        Member::function("-@", "Number::-@", NativeFn::NumberNeg),
        Member::function("+@", "Number::abs", NativeFn::NumberAbs),
        Member::function("~", "Number::~", NativeFn::NumberBitNot),
        Member::function("<=>", "Number::<=>", NativeFn::NumberCmp),
        Member::function("()", "Number::*", NativeFn::NumberMath(MathOp::Mul)),
        Member::function("==", "Number::==", NativeFn::NumberEql),
        Member::function("abs", "Number::abs", NativeFn::NumberAbs),
        Member::function("ceil", "Number::ceil", NativeFn::NumberCeil),
        Member::function("floor", "Number::floor", NativeFn::NumberFloor),
    ]
}

/// The members that the prototype of numbers starts with.
pub fn number_table() -> (table: Vec<Member>)
    ensures
        table@ == number_members(),
{
    let mut table: Vec<Member> = Vec::new();
    table.push(Member::constant("PI", Number::from_bits(PI_BITS)));
    table.push(Member::constant("E", Number::from_bits(E_BITS)));
    table.push(Member::constant("NAN", Number::from_bits(NAN_BITS)));
    table.push(Member::constant("INF", Number::from_bits(INF_BITS)));
    table.push(Member::function("@text", "Number::@text", NativeFn::NumberAtText));
    table.push(Member::function("__inspect__", "Number::__inspect__", NativeFn::NumberInspect));
    table.push(Member::function("@num", "Number::@num", NativeFn::NumberAtNum));
    table.push(Member::function("@bool", "Number::@bool", NativeFn::NumberAtBool));
    table.push(Member::function("clone", "Number::clone", NativeFn::NumberClone));
    table.push(Member::function("+", "Number::+", NativeFn::NumberMath(MathOp::Add)));
    table.push(Member::function("+=", "Number::+=", NativeFn::NumberMathAssign(MathOp::Add)));
    table.push(Member::function("-", "Number::-", NativeFn::NumberMath(MathOp::Sub)));
    table.push(Member::function("-=", "Number::-=", NativeFn::NumberMathAssign(MathOp::Sub)));
    table.push(Member::function("*", "Number::*", NativeFn::NumberMath(MathOp::Mul)));
    table.push(Member::function("*=", "Number::*=", NativeFn::NumberMathAssign(MathOp::Mul)));
    table.push(Member::function("/", "Number::/", NativeFn::NumberMath(MathOp::Div)));
    table.push(Member::function("/=", "Number::/=", NativeFn::NumberMathAssign(MathOp::Div)));
    table.push(Member::function("%", "Number::%", NativeFn::NumberMath(MathOp::Rem)));
    table.push(Member::function("%=", "Number::%=", NativeFn::NumberMathAssign(MathOp::Rem)));
    table.push(Member::function("**", "Number::**", NativeFn::NumberMath(MathOp::Pow)));
    table.push(Member::function("**=", "Number::**=", NativeFn::NumberMathAssign(MathOp::Pow)));
    table.push(Member::function("&", "Number::&", NativeFn::NumberBitwise(BitOp::And)));
    table.push(Member::function("&=", "Number::&=", NativeFn::NumberBitwiseAssign(BitOp::And)));
    table.push(Member::function("|", "Number::|", NativeFn::NumberBitwise(BitOp::Or)));
    table.push(Member::function("|=", "Number::|=", NativeFn::NumberBitwiseAssign(BitOp::Or)));
    table.push(Member::function("^", "Number::^", NativeFn::NumberBitwise(BitOp::Xor)));
    table.push(Member::function("^=", "Number::^=", NativeFn::NumberBitwiseAssign(BitOp::Xor)));
    table.push(Member::function("<<", "Number::<<", NativeFn::NumberBitwise(BitOp::Shl)));
    table.push(Member::function("<<=", "Number::<<=", NativeFn::NumberBitwiseAssign(BitOp::Shl)));
    table.push(Member::function(">>", "Number::>>", NativeFn::NumberBitwise(BitOp::Shr)));
    table.push(Member::function(">>=", "Number::>>=", NativeFn::NumberBitwiseAssign(BitOp::Shr)));
    table.push(Member::function("-@", "Number::-@", NativeFn::NumberNeg));
    table.push(Member::function("+@", "Number::abs", NativeFn::NumberAbs));
    table.push(Member::function("~", "Number::~", NativeFn::NumberBitNot));
    table.push(Member::function("<=>", "Number::<=>", NativeFn::NumberCmp));
    table.push(Member::function("()", "Number::*", NativeFn::NumberMath(MathOp::Mul)));
    table.push(Member::function("==", "Number::==", NativeFn::NumberEql));
    table.push(Member::function("abs", "Number::abs", NativeFn::NumberAbs));
    table.push(Member::function("ceil", "Number::ceil", NativeFn::NumberCeil));
    table.push(Member::function("floor", "Number::floor", NativeFn::NumberFloor));
    assert(table@ =~= number_members());
    table
}

/// The members that the prototype of native functions starts with.
pub open spec fn rustfn_members() -> Seq<Member> {
    seq![
        Member::function("@text", "RustFn::@text", NativeFn::RustFnAtText),
        Member::function("()", "RustFn::()", NativeFn::RustFnCall),
    ]
}

/// The members that the prototype of native functions starts with.
pub fn rustfn_table() -> (table: Vec<Member>)
    ensures
        table@ == rustfn_members(),
{
    let mut table: Vec<Member> = Vec::new();
    table.push(Member::function("@text", "RustFn::@text", NativeFn::RustFnAtText));
    table.push(Member::function("()", "RustFn::()", NativeFn::RustFnCall));
    assert(table@ =~= rustfn_members());
    table
}

/// The cell of the prototype object of `kind` when it is made: it holds
/// the name of the type, has no attributes yet, and has the root
/// prototype as its parent, where that is registered.
pub open spec fn class_cell(kind: Kind, mappings: Mappings) -> CellView {
    CellView {
        value: ValueView::Class(kind.spec_name()),
        attrs: Map::empty(),
        parents: mappings.parents_for(Kind::Pristine),
    }
}

/// The store and the registry once `kind` has a prototype object: as they
/// are where one is registered, and else with a new prototype object,
/// which is registered and has `members` installed.
pub open spec fn with_prototype(
    store: Seq<CellView>,
    mappings: Mappings,
    kind: Kind,
    members: Seq<Member>,
) -> (Seq<CellView>, Mappings) {
    match mappings.spec_of(kind) {
        Some(_) => (store, mappings),
        None => {
            let m = Object { id: store.len() as usize };
            let registered = mappings.spec_with(kind, m);
            (
                installed(store.push(class_cell(kind, mappings)), registered, m, members),
                registered,
            )
        },
    }
}

/// The store and the registry once the builtin types have their
/// prototype objects: the root first, then native functions, booleans and
/// numbers.
pub open spec fn with_builtins(store: Seq<CellView>, mappings: Mappings) -> (
    Seq<CellView>,
    Mappings,
) {
    let root = with_prototype(store, mappings, Kind::Pristine, pristine_members());
    let functions = with_prototype(root.0, root.1, Kind::RustFn, rustfn_members());
    let booleans = with_prototype(functions.0, functions.1, Kind::Boolean, boolean_members());
    with_prototype(booleans.0, booleans.1, Kind::Number, number_members())
}

/// A native type whose values are held by objects.
pub trait ObjectType: Sized {
    /// The native type.
    spec fn spec_kind() -> Kind;

    /// The members that the prototype object of the type starts with.
    spec fn members() -> Seq<Member>;

    /// The payload that holds `self`.
    spec fn spec_value(self) -> ValueView;

    /// The native type.
    fn kind() -> (k: Kind)
        ensures
            k == Self::spec_kind(),
    ;

    /// The members that the prototype object of the type starts with.
    fn table() -> (t: Vec<Member>)
        ensures
            t@ == Self::members(),
    ;

    /// The payload that holds `self`. It holds no objects.
    fn into_value(self) -> (v: Value)
        ensures
            v@ == self.spec_value(),
            v@.kind() == Self::spec_kind(),
            !(v@ is List),
    ;

    /// The prototype object of the type, where one is registered.
    fn mapping(heap: &Heap) -> (m: Option<Object>)
        requires
            heap.wf(),
        ensures
            m == heap.mappings().spec_of(Self::spec_kind()),
            m matches Some(o) ==> heap.has(o),
    {
        heap.mapping(Self::kind())
    }

    /// The prototype object of the type: the one that is registered, or
    /// else a new one, which is registered and gets the members of the
    /// type installed. Calling it again changes nothing.
    fn init(heap: &mut Heap) -> (m: Object)
        requires
            old(heap).wf(),
        ensures
            final(heap).wf(),
            final(heap).has(m),
            final(heap).mappings().spec_of(Self::spec_kind()) == Some(m),
            old(heap).mappings().spec_of(Self::spec_kind()) is None ==> m.id == old(heap)@.len(),
            (final(heap)@, final(heap).mappings()) == with_prototype(
                old(heap)@,
                old(heap).mappings(),
                Self::spec_kind(),
                Self::members(),
            ),
    {
        match heap.mapping(Self::kind()) {
            Some(was) => was,
            None => {
                let kind = Self::kind();
                let parents = match heap.mapping(Kind::Pristine) {
                    Some(root) => {
                        let mut list: Vec<Object> = Vec::new();
                        list.push(root);
                        assert(list@ =~= seq![root]);
                        crate::parents::Parents::Builtin(list)
                    },
                    None => crate::parents::Parents::Empty,
                };
                let m = heap.allocate(Value::Class(kind.name()), parents);
                heap.set_mapping(kind, m);
                let table = Self::table();
                install(heap, m, &table);
                m
            },
        }
    }

    /// Makes a new object that holds `self`, whose only parent is the
    /// prototype object of the type, where one is registered.
    fn new_object(self, heap: &mut Heap) -> (obj: Object)
        requires
            old(heap).wf(),
        ensures
            final(heap).wf(),
            final(heap).mappings() == old(heap).mappings(),
            obj.id == old(heap)@.len(),
            final(heap)@ == old(heap)@.push(
                CellView {
                    value: self.spec_value(),
                    attrs: Map::empty(),
                    parents: old(heap).mappings().parents_for(Self::spec_kind()),
                },
            ),
    {
        heap.new_object(self.into_value())
    }
}

impl ObjectType for Pristine {
    open spec fn spec_kind() -> Kind {
        Kind::Pristine
    }

    open spec fn members() -> Seq<Member> {
        pristine_members()
    }

    open spec fn spec_value(self) -> ValueView {
        ValueView::Pristine
    }

    fn kind() -> (k: Kind) {
        Kind::Pristine
    }

    fn table() -> (t: Vec<Member>) {
        pristine_table()
    }

    fn into_value(self) -> (v: Value) {
        Value::Pristine
    }
}

impl ObjectType for Boolean {
    open spec fn spec_kind() -> Kind {
        Kind::Boolean
    }

    open spec fn members() -> Seq<Member> {
        boolean_members()
    }

    open spec fn spec_value(self) -> ValueView {
        ValueView::Boolean(self)
    }

    fn kind() -> (k: Kind) {
        Kind::Boolean
    }

    fn table() -> (t: Vec<Member>) {
        boolean_table()
    }

    fn into_value(self) -> (v: Value) {
        Value::Boolean(self)
    }
}

impl ObjectType for Number {
    open spec fn spec_kind() -> Kind {
        Kind::Number
    }

    open spec fn members() -> Seq<Member> {
        number_members()
    }

    open spec fn spec_value(self) -> ValueView {
        ValueView::Number(self)
    }

    fn kind() -> (k: Kind) {
        Kind::Number
    }

    fn table() -> (t: Vec<Member>) {
        number_table()
    }

    fn into_value(self) -> (v: Value) {
        Value::Number(self)
    }
}

impl ObjectType for RustFn {
    open spec fn spec_kind() -> Kind {
        Kind::RustFn
    }

    open spec fn members() -> Seq<Member> {
        rustfn_members()
    }

    open spec fn spec_value(self) -> ValueView {
        ValueView::RustFn(self)
    }

    fn kind() -> (k: Kind) {
        Kind::RustFn
    }

    fn table() -> (t: Vec<Member>) {
        rustfn_table()
    }

    fn into_value(self) -> (v: Value) {
        Value::RustFn(self)
    }
}

/// Makes and registers the prototype objects of the builtin types, the
/// root first. What is registered stays.
pub fn init(heap: &mut Heap)
    requires
        old(heap).wf(),
    ensures
        final(heap).wf(),
        (final(heap)@, final(heap).mappings()) == with_builtins(old(heap)@, old(heap).mappings()),
        final(heap)@.len() >= old(heap)@.len(),
        final(heap).mappings().pristine is Some,
        final(heap).mappings().rustfn is Some,
        final(heap).mappings().boolean is Some,
        final(heap).mappings().number is Some,
        forall|kind: Kind|
            (#[trigger] old(heap).mappings().spec_of(kind)) is Some
                ==> final(heap).mappings().spec_of(kind) == old(heap).mappings().spec_of(kind),
{
    let root = Pristine::init(heap);
    let function = RustFn::init(heap);
    let boolean = Boolean::init(heap);
    let number = Number::init(heap);
}

/// No two members of the table have the same key.
pub open spec fn distinct_members(table: Seq<Member>) -> bool {
    forall|i: int, j: int|
        0 <= i < j < table.len() ==> (#[trigger] table[i]).key@ != (#[trigger] table[j]).key@
}

/// The members that the prototype of booleans starts with have keys that
/// all differ.
pub proof fn lemma_boolean_members_distinct()
    ensures
        distinct_members(boolean_members()),
{
    reveal_strlit("__inspect__");
    reveal_strlit("@text");
    reveal_strlit("@num");
    reveal_strlit("@bool");
    reveal_strlit("clone");
    reveal_strlit("==");
    reveal_strlit("!");
    reveal_strlit("&");
    reveal_strlit("&=");
    reveal_strlit("|");
    reveal_strlit("|=");
    reveal_strlit("^");
    reveal_strlit("^=");
    reveal_strlit("<=>");
    let t = boolean_members();
    assert forall|i: int, j: int| 0 <= i < j < t.len() implies (#[trigger] t[i]).key@ != (
    #[trigger] t[j]).key@ by {
        let a = t[i].key@;
        let b = t[j].key@;
        if a.len() == b.len() {
            assert(a[0] != b[0] || a[1] != b[1]);
        }
    }
}

/// The members that the prototype of all objects starts with have keys that
/// all differ.
pub proof fn lemma_pristine_members_distinct()
    ensures
        distinct_members(pristine_members()),
{
    reveal_strlit("__id__");
    reveal_strlit("__keys__");
    reveal_strlit("__call_attr__");
    reveal_strlit("__get_attr__");
    reveal_strlit("__set_attr__");
    reveal_strlit("__has_attr__");
    reveal_strlit("__del_attr__");
    reveal_strlit("__inspect__");
    reveal_strlit("::");
    reveal_strlit(".");
    reveal_strlit(".=");
    let t = pristine_members();
    assert forall|i: int, j: int| 0 <= i < j < t.len() implies (#[trigger] t[i]).key@ != (
    #[trigger] t[j]).key@ by {
        let a = t[i].key@;
        let b = t[j].key@;
        if a.len() == b.len() {
            assert(a[0] != b[0] || a[1] != b[1] || a[2] != b[2] || a[3] != b[3] || a[4] != b[4]);
        }
    }
}

/// The members that the prototype of native functions starts with have keys that
/// all differ.
pub proof fn lemma_rustfn_members_distinct()
    ensures
        distinct_members(rustfn_members()),
{
    reveal_strlit("@text");
    reveal_strlit("()");
    let t = rustfn_members();
    assert forall|i: int, j: int| 0 <= i < j < t.len() implies (#[trigger] t[i]).key@ != (
    #[trigger] t[j]).key@ by {
        let a = t[i].key@;
        let b = t[j].key@;
        if a.len() == b.len() {
            assert(a[0] != b[0] || a[1] != b[1] || a[2] != b[2] || a[3] != b[3] || a[4] != b[4]);
        }
    }
}

/// The members that the prototype of numbers starts with have keys that
/// all differ.
pub proof fn lemma_number_members_distinct()
    ensures
        distinct_members(number_members()),
{
    reveal_strlit("PI");
    reveal_strlit("E");
    reveal_strlit("NAN");
    reveal_strlit("INF");
    reveal_strlit("@text");
    reveal_strlit("__inspect__");
    reveal_strlit("@num");
    reveal_strlit("@bool");
    reveal_strlit("clone");
    reveal_strlit("+");
    reveal_strlit("+=");
    reveal_strlit("-");
    reveal_strlit("-=");
    reveal_strlit("*");
    reveal_strlit("*=");
    reveal_strlit("/");
    reveal_strlit("/=");
    reveal_strlit("%");
    reveal_strlit("%=");
    reveal_strlit("**");
    reveal_strlit("**=");
    reveal_strlit("&");
    reveal_strlit("&=");
    reveal_strlit("|");
    reveal_strlit("|=");
    reveal_strlit("^");
    reveal_strlit("^=");
    reveal_strlit("<<");
    reveal_strlit("<<=");
    reveal_strlit(">>");
    reveal_strlit(">>=");
    reveal_strlit("-@");
    reveal_strlit("+@");
    reveal_strlit("~");
    reveal_strlit("<=>");
    reveal_strlit("()");
    reveal_strlit("==");
    reveal_strlit("abs");
    reveal_strlit("ceil");
    reveal_strlit("floor");
    let t = number_members();
    assert forall|i: int, j: int| 0 <= i < j < t.len() implies (#[trigger] t[i]).key@ != (
    #[trigger] t[j]).key@ by {
        let a = t[i].key@;
        let b = t[j].key@;
        if a.len() == b.len() {
            assert(a[0] != b[0] || a[1] != b[1] || a[2] != b[2] || a[3] != b[3] || a[4] != b[4]);
        }
    }
}

/// A prototype object that is made has each member of its table: under
/// the key of the member, the object that holds the member. The keys of
/// the table all differ.
pub proof fn lemma_prototype_members(
    store: Seq<CellView>,
    mappings: Mappings,
    kind: Kind,
    members: Seq<Member>,
    i: int,
)
    requires
        mappings.spec_of(kind) is None,
        distinct_members(members),
        0 <= i < members.len(),
        store.len() + 1 + members.len() <= usize::MAX,
    ensures
        ({
            let made = with_prototype(store, mappings, kind, members);
            let after = made.0;
            let key = KeyId::Name(members[i].key@);
            &&& made.1.spec_of(kind) matches Some(m) && m.id == store.len()
            &&& after.len() == store.len() + 1 + members.len()
            &&& after[store.len() as int].attrs.dom().contains(key)
            &&& after[store.len() as int].attrs[key].id == store.len() + 1 + i
            &&& after[store.len() + 1 + i].value == members[i].payload()
        }),
{
    let m = Object { id: store.len() as usize };
    let registered = mappings.spec_with(kind, m);
    lemma_installed_member(store.push(class_cell(kind, mappings)), registered, m, members, i);
}

} // verus!
