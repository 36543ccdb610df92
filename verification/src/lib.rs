//! Verified protocol core of a binding to an embedded key-value engine.
//!
//! The engine itself lives outside this crate. Every operation here
//! computes the native call to make, as a plain value, and turns the
//! engine's plain reply into a result; the caller performs the call. What
//! the crate owns, and proves, is the bookkeeping around the engine's
//! handles: which object holds which resource, which reads are pinned to a
//! snapshot, how a cursor is steered, and what is released when.

pub mod column_family;
pub mod db;
pub mod db_iterator;
pub mod db_options;
pub mod db_vector;
pub mod engine;
pub mod error;
pub mod ffi_util;
pub mod handle;
pub mod laws;
pub mod model;
pub mod open_raw;
pub mod ops;
pub mod optimistic_transaction;
pub mod options;
pub mod read_only_db;
pub mod secondary_db;
pub mod snapshot;
pub mod text;
