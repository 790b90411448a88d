//! A thin helper layer over the curl transport library: it configures and
//! executes single-shot HTTP requests, builds multipart form bodies, manages
//! header lists, and wraps raw responses with optional typed-object parsing.

/// Functions executing requests on a transport handle
pub mod easy;
/// The error type every fallible operation returns
pub mod error;
/// Functions building multipart forms
pub mod form;
/// Functions building header lists
pub mod header;
/// Response structures
pub mod response;
/// The base traits for API wrappers
pub mod traits;

pub use easy::{basic_auth, curl_easy_execute, delete, get, post, put};
pub use form::{add_form_binary_element, add_form_file_element, add_form_string_element};
pub use header::add_header;
pub use response::{BinaryObjectResponse, BinaryResponse, StringObjectResponse, StringResponse};
