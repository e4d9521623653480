//! The native functions of the builtin types, as the dispatch protocol
//! calls them.

pub mod boolean;
pub mod list;
pub mod number;
pub mod pristine;
pub mod rustfn;
