//! Bridges a row-oriented relational source, reached through a
//! connectivity driver, to columnar schema-typed output: a resolver that
//! builds the driver connection target, a pull-based columnar batch stream,
//! a constant-memory streaming encoder, a zero-copy foreign-memory
//! exporter, and a classifier that maps raw driver diagnostics onto a small
//! closed error taxonomy.

pub mod arrowio;
pub mod config;
pub mod connection;
pub mod encode;
pub mod errors;
pub mod export;
pub mod laws;
pub mod resolve;
pub mod session;
pub mod strutil;
