//! The object handle and the native payload of a cell.

use vstd::prelude::*;
use crate::boolean::Boolean;
use crate::key::Literal;
use crate::number::Number;
use crate::rustfn::RustFn;

verus! {

/// A handle to a cell of the store. Copying the handle shares the cell.
#[derive(Debug, Clone, Copy, PartialEq, Eq, Hash, Structural)]
pub struct Object {
    /// The identity of the cell: the number of cells that were created
    /// before it.
    pub id: usize,
}

impl Object {
    /// The identity of the cell.
    pub fn id(self) -> (id: usize)
        ensures
            id == self.id,
    {
        self.id
    }

    /// Whether two handles name the same cell, whatever the cell holds.
    pub fn is_identical(self, other: Object) -> (b: bool)
        ensures
            b == (self.id == other.id),
            b == (self == other),
    {
        self.id == other.id
    }
}

/// The native types a cell can hold.
#[derive(Debug, Clone, Copy, PartialEq, Eq, Hash, Structural)]
pub enum Kind {
    Pristine,
    Class,
    Boolean,
    Number,
    Text,
    List,
    RustFn,
}

impl Kind {
    /// The name of the type.
    pub fn name(self) -> (s: Literal)
        ensures
            s@ == self.spec_name(),
    {
        match self {
            Kind::Pristine => "Pristine",
            Kind::Class => "Class",
            Kind::Boolean => "Boolean",
            Kind::Number => "Number",
            Kind::Text => "Text",
            Kind::List => "List",
            Kind::RustFn => "RustFn",
        }
    }

    /// The name of the type.
    pub open spec fn spec_name(self) -> Seq<char> {
        match self {
            Kind::Pristine => "Pristine"@,
            Kind::Class => "Class"@,
            Kind::Boolean => "Boolean"@,
            Kind::Number => "Number"@,
            Kind::Text => "Text"@,
            Kind::List => "List"@,
            Kind::RustFn => "RustFn"@,
        }
    }
}

/// The native payload of a cell.
#[derive(Debug)]
pub enum Value {
    /// No payload: a plain object.
    Pristine,
    /// The prototype object of the type with this name.
    Class(Literal),
    Boolean(Boolean),
    Number(Number),
    Text(String),
    List(Vec<Object>),
    RustFn(RustFn),
}

/// What a payload holds, as plain values.
pub enum ValueView {
    Pristine,
    Class(Seq<char>),
    Boolean(Boolean),
    Number(Number),
    Text(Seq<char>),
    List(Seq<Object>),
    RustFn(RustFn),
}

impl ValueView {
    /// The native type of the payload.
    pub open spec fn kind(self) -> Kind {
        match self {
            ValueView::Pristine => Kind::Pristine,
            ValueView::Class(_) => Kind::Class,
            ValueView::Boolean(_) => Kind::Boolean,
            ValueView::Number(_) => Kind::Number,
            ValueView::Text(_) => Kind::Text,
            ValueView::List(_) => Kind::List,
            ValueView::RustFn(_) => Kind::RustFn,
        }
    }
}

impl View for Value {
    type V = ValueView;

    open spec fn view(&self) -> ValueView {
        match self {
            Value::Pristine => ValueView::Pristine,
            Value::Class(name) => ValueView::Class(name@),
            Value::Boolean(b) => ValueView::Boolean(*b),
            Value::Number(n) => ValueView::Number(*n),
            Value::Text(s) => ValueView::Text(s@),
            Value::List(items) => ValueView::List(items@),
            Value::RustFn(f) => ValueView::RustFn(*f),
        }
    }
}

impl Value {
    /// The native type of the payload.
    pub fn kind(&self) -> (k: Kind)
        ensures
            k == self@.kind(),
    {
        match self {
            Value::Pristine => Kind::Pristine,
            Value::Class(_) => Kind::Class,
            Value::Boolean(_) => Kind::Boolean,
            Value::Number(_) => Kind::Number,
            Value::Text(_) => Kind::Text,
            Value::List(_) => Kind::List,
            Value::RustFn(_) => Kind::RustFn,
        }
    }

    /// A payload that holds the same.
    pub fn duplicate(&self) -> (v: Value)
        ensures
            v@ == self@,
    {
        match self {
            Value::Pristine => Value::Pristine,
            Value::Class(name) => Value::Class(*name),
            Value::Boolean(b) => Value::Boolean(*b),
            Value::Number(n) => Value::Number(*n),
            Value::Text(s) => Value::Text(s.clone()),
            Value::List(items) => Value::List(items.clone()),
            Value::RustFn(f) => Value::RustFn(*f),
        }
    }
}

} // verus!
