use vstd::pervasive::cloned;
use vstd::prelude::*;
use vstd::slice::slice_to_vec;
use vstd::utf8::{decode_utf8, valid_utf8};

use crate::response::string_object_response::StringObjectResponse;
use crate::response::text::{lossy_utf8, utf8_lossy};

verus! {

/// A response from a request with an object and binary raw data
pub struct BinaryObjectResponse<T> {
    /// The HTTP response code, absent when the transport could not determine
    /// one
    pub http_code: Option<u32>,

    /// The data as directly returned by the server
    pub raw_data: Vec<u8>,

    /// The parsed data as an object, only if parsing was successful
    pub object: Option<T>,
}

impl<T> BinaryObjectResponse<T> {
    /// Creates a new response carrying exactly the given status, body and
    /// object
    ///
    /// # Parameters
    ///
    /// * `http_code`: The HTTP response code if the transport determined one
    /// * `raw_data`: The response body
    /// * `object`: The parsed object if parsing was successful
    pub fn create_from_data(http_code: Option<u32>, raw_data: &[u8], object: Option<T>) -> (r: Self)
        ensures
            r.http_code == http_code,
            r.raw_data@ == raw_data@,
            r.object == object,
    {
        Self { http_code, raw_data: slice_to_vec(raw_data), object }
    }
}

impl<T> BinaryObjectResponse<T> where T: Clone {
    /// Creates a version of the response where `raw_data` is a string,
    /// decoded losslessly from valid UTF-8 and with every invalid byte
    /// sequence replaced; the status is kept and the object is cloned
    pub fn to_string_response(&self) -> (r: StringObjectResponse<T>)
        ensures
            r.http_code == self.http_code,
            r.raw_data@ == lossy_utf8(self.raw_data@),
            valid_utf8(self.raw_data@) ==> r.raw_data@ == decode_utf8(self.raw_data@),
            r.object is Some <==> self.object is Some,
            self.object is Some ==> cloned::<T>(self.object->0, r.object->0),
    {
        StringObjectResponse {
            http_code: self.http_code,
            raw_data: utf8_lossy(self.raw_data.as_slice()),
            object: self.object.clone(),
        }
    }
}

impl<T> Default for BinaryObjectResponse<T> {
    /// A never-executed response: absent status, empty body and no object
    fn default() -> (r: Self)
        ensures
            r.http_code is None,
            r.raw_data@ == Seq::<u8>::empty(),
            r.object is None,
    {
        Self { http_code: None, raw_data: Vec::new(), object: None }
    }
}

} // verus!
