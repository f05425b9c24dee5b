//! A typed, verified data model for a container-engine HTTP API.
//!
//! The crate models the resource records that such an API returns
//! (container summaries, inspect results, images, filesystem diffs),
//! decodes them from a JSON tree with explicit per-field name mapping,
//! and renders request options into form-urlencoded query strings.
//! It performs no I/O of its own: a transport layer hands it decoded
//! JSON trees and receives encoded trees or query strings back.

pub mod container;
pub mod encoding;
pub mod filesystem;
pub mod image;
pub mod json;
pub mod options;

pub use json::Json;
pub use json::JsonV;
pub use json::SchemaError;
