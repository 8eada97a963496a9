//! The core of a single-endpoint prompt relay: a prompt is read from an
//! HTTP body, handed to a hosted language model, and the completion or the
//! failure is written back as a JSON envelope.
//!
//! The logic is verified; what it takes from `serde_json`, from the Bedrock
//! SDK and from `core::str` stands in `json`, `sdk` and `text` as contracts
//! that are believed, not proved.

pub mod error_bedrock;
pub mod http_handler;
pub mod invoke;
pub mod json;
pub mod prompt;
pub mod response;
pub mod sdk;
pub mod text;
