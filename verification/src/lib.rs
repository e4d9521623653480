//! The object layer of a prototype-based scripting language.
//!
//! Every value is an object: a cell with an identity, a native payload,
//! attributes of its own and a list of parents. An attribute that an
//! object does not have of its own is looked up in its parents, first
//! match first. Operators and conversions are attributes like any other,
//! under fixed keys such as `"+"` or `"@text"`, and resolve to native
//! functions.
//!
//! - [`heap`] holds the cells. An [`Object`] is a handle into it, and two
//!   handles to one cell share what is written through either.
//! - [`store`] says, on plain values, what the cells hold and what a
//!   lookup gives; [`laws`] states what follows for every store.
//! - [`boolean`] and [`number`] are the builtin value types, [`rustfn`]
//!   the native functions as values.
//! - [`attrs`] names the capabilities, [`impls`] holds the native
//!   functions of the builtin types, [`dispatch`] maps each native
//!   function to its code, and [`types`] installs them on the prototype
//!   objects.
//!
//! A native function that cannot finish on its own hands back what has to
//! happen first: see [`step::Step`], and [`resume`] for how the call goes
//! on. Nothing here computes with floating-point values; see [`number`].

pub mod args;
pub mod attributes;
pub mod attrs;
pub mod binding;
pub mod boolean;
pub mod dispatch;
pub mod error;
pub mod heap;
pub mod impls;
pub mod key;
pub mod laws;
pub mod number;
pub mod object;
pub mod parents;
pub mod resume;
pub mod rustfn;
pub mod step;
pub mod store;
pub mod stream;
pub mod text;
pub mod types;

pub use crate::args::Args;
pub use crate::attrs::literals;
pub use crate::binding::Binding;
pub use crate::error::{Error, Result};
pub use crate::heap::Heap;
pub use crate::object::Object;
