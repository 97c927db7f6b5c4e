//! Error taxonomy of a byte-oriented network I/O layer.
//!
//! Reading and writing bytes over a transport connection can fail in a small,
//! closed set of ways. This crate classifies those failures into a read-side
//! and a write-side error type, keeps the lower-level cause of each failure
//! retrievable, and renders each error as a one-line summary.

pub mod netio_errors;
pub mod causes;
pub mod rendering;
pub mod bytes_errors;
pub mod laws;
