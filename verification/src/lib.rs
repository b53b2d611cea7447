//! A bridge between a concrete SQLite-style database driver and a
//! backend-neutral ("erased") representation of types, values, rows, bound
//! arguments and query results.
//!
//! The bridge keeps two independent type systems in correspondence: the
//! erased taxonomy, which is stable across backends and open for future
//! kinds, and the concrete taxonomy, which belongs to one backend. Every
//! conversion either succeeds with the logical value preserved or reports a
//! structured error; no kind is ever silently defaulted.

pub mod adapter;
pub mod argument;
pub mod connect;
pub mod error;
pub mod ieee_bits;
pub mod row;
pub mod statement;
pub mod stream;
pub mod summary;
pub mod types;
pub mod value;
