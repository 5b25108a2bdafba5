//! The types that a request handler works with.
pub mod json;

pub use crate::types::json::{Json, JsonConfig};
