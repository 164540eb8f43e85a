//! Decoder for CBOR "set-like" sequences: an array of elements, written
//! either bare or wrapped in semantic tag 258, with a fixed-count or an
//! indefinite (break-terminated) length header.  The decoder accepts both
//! framings, preserves element order, and records which header form was on
//! the wire so a later re-encode can reproduce the original bytes.

pub mod error;
pub mod format;
pub mod laws;
pub mod non_empty_set;
pub mod reader;

pub use error::{DeserializeError, DeserializeFailure};
pub use format::{HeadWidth, LengthEncoding, MajorType};
pub use non_empty_set::{Deserialize, NonemptySet};
