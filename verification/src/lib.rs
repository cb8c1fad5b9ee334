//! Conversion of one document between textual data formats.
//!
//! A document in a source format is replayed, value by value, into the
//! writer of a destination format. The formats' own readers and writers come
//! from `serde_json` and `serde_yaml`, and `serde_transcode` drives one into
//! the other; this crate chooses the pair, refuses a document that holds
//! nothing, and says of every failure which side it is laid on.

pub mod adapters;
pub mod error;
pub mod format;
pub mod laws;
pub mod transcoder;

pub use crate::error::{ErrorKind, Failure, TranscodeError};
pub use crate::format::Format;
pub use crate::transcoder::{attribute, read_source, replay, transcode};
