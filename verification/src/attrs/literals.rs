//! The fixed keys of the dispatch protocol.

use vstd::prelude::*;
use crate::key::Literal;

verus! {

pub const AT_TEXT: Literal = "@text";

pub const AT_BOOL: Literal = "@bool";

pub const AT_NUM: Literal = "@num";

pub const AT_LIST: Literal = "@list";

pub const INSPECT: Literal = "__inspect__";

pub const HASH: Literal = "hash";

pub const CLONE: Literal = "clone";

pub const ADD: Literal = "+";

pub const SUB: Literal = "-";

pub const MUL: Literal = "*";

pub const DIV: Literal = "/";

pub const MOD: Literal = "%";

pub const POW: Literal = "**";

pub const POS: Literal = "+@";

pub const NEG: Literal = "-@";

pub const EQL: Literal = "==";

pub const NEQ: Literal = "!=";

pub const LTH: Literal = "<";

pub const GTH: Literal = ">";

pub const LEQ: Literal = "<=";

pub const GEQ: Literal = ">=";

pub const CMP: Literal = "<=>";

pub const NOT: Literal = "!";

pub const OR: Literal = "||";

pub const AND: Literal = "&&";

pub const BNOT: Literal = "~";

pub const BAND: Literal = "&";

pub const BOR: Literal = "|";

pub const BXOR: Literal = "^";

pub const SHL: Literal = "<<";

pub const SHR: Literal = ">>";

pub const ADD_ASSIGN: Literal = "+=";

pub const SUB_ASSIGN: Literal = "-=";

pub const MUL_ASSIGN: Literal = "*=";

pub const DIV_ASSIGN: Literal = "/=";

pub const MOD_ASSIGN: Literal = "%=";

pub const POW_ASSIGN: Literal = "**=";

pub const BAND_ASSIGN: Literal = "&=";

pub const BOR_ASSIGN: Literal = "|=";

pub const BXOR_ASSIGN: Literal = "^=";

pub const SHL_ASSIGN: Literal = "<<=";

pub const SHR_ASSIGN: Literal = ">>=";

pub const CALL: Literal = "()";

pub const ID: Literal = "__id__";

pub const KEYS: Literal = "__keys__";

pub const CALL_ATTR: Literal = "__call_attr__";

pub const GET_ATTR: Literal = "__get_attr__";

pub const SET_ATTR: Literal = "__set_attr__";

pub const HAS_ATTR: Literal = "__has_attr__";

pub const DEL_ATTR: Literal = "__del_attr__";

pub const COLON_COLON: Literal = "::";

pub const DOT: Literal = ".";

pub const DOT_ASSIGN: Literal = ".=";

pub const PUSH: Literal = "push";

} // verus!
