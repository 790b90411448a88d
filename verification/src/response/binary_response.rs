use vstd::prelude::*;
use vstd::slice::slice_to_vec;
use vstd::utf8::{decode_utf8, valid_utf8};

use crate::response::binary_object_response::BinaryObjectResponse;
use crate::response::string_response::StringResponse;
use crate::response::text::{lossy_utf8, utf8_lossy};

verus! {

/// A response from a request with binary raw data
pub struct BinaryResponse {
    /// The HTTP response code, absent when the transport could not determine
    /// one
    pub http_code: Option<u32>,

    /// The data as directly returned by the server
    pub raw_data: Vec<u8>,
}

impl BinaryResponse {
    /// Creates a new response carrying exactly the given status and body
    ///
    /// # Parameters
    ///
    /// * `http_code`: The HTTP response code if the transport determined one
    /// * `raw_data`: The response body
    pub fn create_from_data(http_code: Option<u32>, raw_data: &[u8]) -> (r: Self)
        ensures
            r.http_code == http_code,
            r.raw_data@ == raw_data@,
    {
        Self { http_code, raw_data: slice_to_vec(raw_data) }
    }

    /// Creates a version of the response where `raw_data` is a string,
    /// decoded losslessly from valid UTF-8 and with every invalid byte
    /// sequence replaced; the status is kept unchanged
    pub fn to_string_response(&self) -> (r: StringResponse)
        ensures
            r.http_code == self.http_code,
            r.raw_data@ == lossy_utf8(self.raw_data@),
            valid_utf8(self.raw_data@) ==> r.raw_data@ == decode_utf8(self.raw_data@),
    {
        StringResponse { http_code: self.http_code, raw_data: utf8_lossy(self.raw_data.as_slice()) }
    }

    /// Adds an object to the response; the status and the body are kept
    /// unchanged
    ///
    /// # Parameters
    ///
    /// * `object`: The object to add
    pub fn add_object<T>(self, object: T) -> (r: BinaryObjectResponse<T>)
        ensures
            r.http_code == self.http_code,
            r.raw_data == self.raw_data,
            r.object == Some(object),
    {
        BinaryObjectResponse { http_code: self.http_code, raw_data: self.raw_data, object: Some(object) }
    }

    /// Adds an object inside an `Option` to the response; the status and the
    /// body are kept unchanged
    ///
    /// # Parameters
    ///
    /// * `object`: The object to add
    pub fn add_optional_object<T>(self, object: Option<T>) -> (r: BinaryObjectResponse<T>)
        ensures
            r.http_code == self.http_code,
            r.raw_data == self.raw_data,
            r.object == object,
    {
        BinaryObjectResponse { http_code: self.http_code, raw_data: self.raw_data, object }
    }
}

impl Default for BinaryResponse {
    /// A never-executed response: absent status and empty body
    fn default() -> (r: Self)
        ensures
            r.http_code is None,
            r.raw_data@ == Seq::<u8>::empty(),
    {
        Self { http_code: None, raw_data: Vec::new() }
    }
}

} // verus!
