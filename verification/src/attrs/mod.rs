//! The capability protocol: one trait for each operator and conversion,
//! each with the key it is dispatched under and one entry point.

pub mod conversion;
pub mod convert;
pub mod literals;
pub mod misc;
pub mod operators;
