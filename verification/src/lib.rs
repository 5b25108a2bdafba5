//! Bounded decoding of JSON request bodies.
//!
//! A request body arrives as a stream of byte chunks. Before the first chunk
//! is pulled the content type is checked and a declared length is held
//! against the configured limit; while chunks arrive the body is collected
//! into a buffer that never grows past that limit; once the stream ends the
//! buffer goes to a schema parser, and whatever went wrong on the way is
//! reported as one [`errors::JsonPayloadError`].
//!
//! Pulling chunks and running the schema parser are the caller's part. The
//! decisions are made here: [`types::json::JsonBody`] and
//! [`types::json::Aggregator`] say after each event what to do next.
pub mod buffer;
pub mod decode;
pub mod errors;
pub mod length;
pub mod media;
pub mod types;
