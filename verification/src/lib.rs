//! Semantic tags for CBOR-like formats, as plain records.
//!
//! A tagged value is presented to a serializer as a record of two fields under
//! reserved names, and read back from such a record. This crate holds the
//! convention itself: which record stands for a tagged value, and which
//! records are accepted when reading one back.

pub mod laws;
pub mod record;
pub mod tag;
pub mod text;
