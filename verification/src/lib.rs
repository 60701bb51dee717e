//! Untyped values of a content-addressed, self-describing data model, and the
//! lossless conversions between them and their typed leaf values.

pub mod error;
pub mod laws;
pub mod leaf;
pub mod untyped;
