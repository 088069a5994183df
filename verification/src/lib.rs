//! Core of a URL-shortening service: a verified key-value store mapping short
//! identifiers to full URLs, a command that generates and persists a fresh
//! identifier, a query that resolves an identifier back to its URL, and a
//! facade composing the two over one store.

pub mod adapters;
pub mod app;
pub mod storage;
