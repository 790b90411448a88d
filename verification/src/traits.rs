//! The base traits concrete per-service wrappers implement.

/// The base functions of an API wrapper
pub mod api;

pub use api::Api;
