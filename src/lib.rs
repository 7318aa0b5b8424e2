//! A small harness around a table-based bytecode module format: it assembles a
//! self-consistent module from scratch, keeps serialized modules in an in-memory
//! store keyed by module identity, and lays out the argument list of a call.
use vstd::prelude::*;

pub mod file_format;
pub mod builder;
pub mod store;
pub mod invoke;

verus! {

} // verus!
