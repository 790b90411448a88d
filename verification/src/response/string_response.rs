use vstd::prelude::*;

use crate::response::string_object_response::StringObjectResponse;

verus! {

/// A response from a request with string raw data
pub struct StringResponse {
    /// The HTTP response code, absent when the transport could not determine
    /// one
    pub http_code: Option<u32>,

    /// The data as directly returned by the server, decoded as text
    pub raw_data: String,
}

impl StringResponse {
    /// Creates a new response carrying exactly the given status and body
    ///
    /// # Parameters
    ///
    /// * `http_code`: The HTTP response code if the transport determined one
    /// * `raw_data`: The response body
    pub fn create_from_data(http_code: Option<u32>, raw_data: String) -> (r: Self)
        ensures
            r.http_code == http_code,
            r.raw_data@ == raw_data@,
    {
        Self { http_code, raw_data }
    }

    /// Adds an object to the response; the status and the body are kept
    /// unchanged
    ///
    /// # Parameters
    ///
    /// * `object`: The object to add
    pub fn add_object<T>(self, object: T) -> (r: StringObjectResponse<T>)
        ensures
            r.http_code == self.http_code,
            r.raw_data == self.raw_data,
            r.object == Some(object),
    {
        StringObjectResponse { http_code: self.http_code, raw_data: self.raw_data, object: Some(object) }
    }

    /// Adds an object inside an `Option` to the response; the status and the
    /// body are kept unchanged
    ///
    /// # Parameters
    ///
    /// * `object`: The object to add
    pub fn add_optional_object<T>(self, object: Option<T>) -> (r: StringObjectResponse<T>)
        ensures
            r.http_code == self.http_code,
            r.raw_data == self.raw_data,
            r.object == object,
    {
        StringObjectResponse { http_code: self.http_code, raw_data: self.raw_data, object }
    }
}

impl Default for StringResponse {
    /// A never-executed response: absent status and empty body
    fn default() -> (r: Self)
        ensures
            r.http_code is None,
            r.raw_data@ == Seq::<char>::empty(),
    {
        Self { http_code: None, raw_data: String::new() }
    }
}

} // verus!
