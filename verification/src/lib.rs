//! A structural bridge between two in-memory representations of a decoded
//! binary module: the typed constructs a decoding component produces
//! (`source`) and the typed constructs a re-encoding component accepts
//! (`target`). Each conversion is a total mapping proved to carry every
//! variant and every numeric field over unchanged; the one byte-level
//! operation, constant-expression re-slicing, is proved to return the
//! input's bytes minus exactly its one-byte terminator.

pub mod convert;
pub mod laws;
pub mod source;
pub mod target;
