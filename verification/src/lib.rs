//! Projection of an external C/C++ source analyzer's cursor tree into an
//! owned, strongly typed syntax tree, together with the decision logic that
//! drives one parse or a batch of parses over a compilation database.
//!
//! The analyzer itself is reached over a C interface that this library does
//! not call directly: callers read the raw cursor data into plain values
//! ([`cursor::CursorInfo`], [`tree::RawNode`]) and the verified code here
//! classifies them, builds the tree, applies the system-header exclusion
//! policy, and maps the analyzer's result codes to typed errors.

pub mod codes;
pub mod cursor;
pub mod database;
pub mod lifecycle;
pub mod options;
pub mod parse;
pub mod text;
pub mod tree;
