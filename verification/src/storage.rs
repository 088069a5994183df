//! The storage layer: the error taxonomy of the store and its in-memory
//! implementation.

pub mod error;
pub mod in_memory;
