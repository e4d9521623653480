//! Native functions as values: a name and the function it stands for.

use vstd::prelude::*;
use crate::error::{Error, Result, NAME_MISMATCH};
use crate::key::Literal;

verus! {

/// The arithmetic operators of two operands.
#[derive(Debug, Clone, Copy, PartialEq, Eq, Hash, Structural)]
pub enum MathOp {
    Add,
    Sub,
    Mul,
    Div,
    Rem,
    Pow,
}

/// The bitwise operators of two operands.
#[derive(Debug, Clone, Copy, PartialEq, Eq, Hash, Structural)]
pub enum BitOp {
    And,
    Or,
    Xor,
    Shl,
    Shr,
}

/// Which native function a [`RustFn`] stands for. Two values are the same
/// function exactly when they are equal.
#[derive(Debug, Clone, Copy, PartialEq, Eq, Hash, Structural)]
pub enum NativeFn {
    PristineId,
    PristineKeys,
    PristineCallAttr,
    PristineGetAttr,
    PristineSetAttr,
    PristineHasAttr,
    PristineDelAttr,
    PristineInspect,
    PristineDotGetAttr,
    BooleanInspect,
    BooleanAtText,
    BooleanAtNum,
    BooleanAtBool,
    BooleanEql,
    BooleanNot,
    BooleanBitAnd,
    BooleanBitAndAssign,
    BooleanBitOr,
    BooleanBitOrAssign,
    BooleanBitXor,
    BooleanBitXorAssign,
    BooleanCmp,
    BooleanClone,
    NumberAtText,
    NumberInspect,
    NumberAtNum,
    NumberAtBool,
    NumberClone,
    NumberMath(MathOp),
    NumberMathAssign(MathOp),
    NumberBitwise(BitOp),
    NumberBitwiseAssign(BitOp),
    NumberNeg,
    NumberAbs,
    NumberBitNot,
    NumberCmp,
    NumberEql,
    NumberFloor,
    NumberCeil,
    RustFnAtText,
    RustFnCall,
    /// A function of the embedding program, by the number it gave it.
    Foreign(u64),
}

/// A native function with the name it shows under.
#[derive(Debug, Clone, Copy)]
pub struct RustFn {
    pub name: Literal,
    pub func: NativeFn,
}

/// Whether two native functions are equal: they stand for the same
/// function. `None` where one function goes under two names, or one name
/// stands for two functions, which breaks the runtime's own rule.
pub open spec fn equality(a: RustFn, b: RustFn) -> Option<bool> {
    if (a.func == b.func) == (a.name@ == b.name@) {
        Some(a.func == b.func)
    } else {
        None
    }
}

impl RustFn {
    /// Gives the function `func` the name `name`.
    pub fn new(name: Literal, func: NativeFn) -> (f: RustFn)
        ensures
            f.name == name,
            f.func == func,
    {
        RustFn { name, func }
    }

    /// The name of the function, which is also its text.
    pub fn name(&self) -> (s: Literal)
        ensures
            s == self.name,
    {
        self.name
    }

    /// Whether two native functions are the same function. A pair that
    /// agrees in the function and not in the name, or in the name and not
    /// in the function, is an internal error.
    pub fn eql(&self, rhs: &RustFn) -> (r: Result<bool>)
        ensures
            match equality(*self, *rhs) {
                Some(b) => r == Ok::<bool, Error>(b),
                None => r matches Err(e) && e == Error::Internal(NAME_MISMATCH),
            },
    {
        let same_func = self.func == rhs.func;
        let left: String = self.name.to_owned();
        let right: String = rhs.name.to_owned();
        let same_name = left == right;
        if same_func == same_name {
            Ok(same_func)
        } else {
            Err(Error::Internal(NAME_MISMATCH))
        }
    }
}

/// A native function is equal to itself, and to any function built from
/// the same function and name. Two that are built from one function under
/// two names, or from two functions under one name, have no equality: the
/// comparison reports the pairing as broken.
pub proof fn lemma_rustfn_equality(a: RustFn, b: RustFn)
    ensures
        equality(a, a) == Some(true),
        a.func == b.func && a.name@ == b.name@ ==> equality(a, b) == Some(true),
        a.func != b.func && a.name@ != b.name@ ==> equality(a, b) == Some(false),
        a.func == b.func && a.name@ != b.name@ ==> equality(a, b) is None,
        a.func != b.func && a.name@ == b.name@ ==> equality(a, b) is None,
        equality(a, b) == equality(b, a),
{
}

} // verus!
