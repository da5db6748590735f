//! The key-value part of the store: one value per key, which is a string, a
//! number or a list of strings.

pub mod collection;
pub mod json;
pub mod primitive;
pub mod table;
