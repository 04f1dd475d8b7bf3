//! A value-marshalling layer for a dynamically typed, column-oriented embedded
//! database engine, verified against an explicit model of the engine's prepared
//! statement.
//!
//! The library has two halves:
//!
//! * [`stmt::Statement`] models the narrow primitive surface a prepared
//!   statement offers: typed parameter binds (1-based slots) and typed column
//!   reads from the current result row (0-based columns), together with the
//!   dynamic storage-type probe.
//! * [`types::ToSql`] and [`types::FromSql`] are the conversion capabilities
//!   host types implement on top of those primitives: every bindable type has a
//!   canonical wire encoding, and every extractable type materializes an owned
//!   host value from the current row.
//!
//! The round-trip guarantees (bind a value, read it back unchanged) are stated
//! and proved in [`laws`].

pub mod data;
pub mod laws;
pub mod stmt;
pub mod types;
