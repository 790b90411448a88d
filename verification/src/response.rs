//! The response wrapper hierarchy: raw bytes or text, each with an
//! optional-typed-object variant.

/// Response with an object and binary raw data
pub mod binary_object_response;
/// Response with binary raw data
pub mod binary_response;
/// Response with an object and string raw data
pub mod string_object_response;
/// Response with string raw data
pub mod string_response;
/// Lossy text decoding of response bodies
pub mod text;

pub use binary_object_response::BinaryObjectResponse;
pub use binary_response::BinaryResponse;
pub use string_object_response::StringObjectResponse;
pub use string_response::StringResponse;
