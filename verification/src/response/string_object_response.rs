use vstd::prelude::*;

verus! {

/// A response from a request with an object and string raw data
pub struct StringObjectResponse<T> {
    /// The HTTP response code, absent when the transport could not determine
    /// one
    pub http_code: Option<u32>,

    /// The data as directly returned by the server, decoded as text
    pub raw_data: String,

    /// The parsed data as an object, only if parsing was successful
    pub object: Option<T>,
}

impl<T> StringObjectResponse<T> {
    /// Creates a new response carrying exactly the given status, body and
    /// object
    ///
    /// # Parameters
    ///
    /// * `http_code`: The HTTP response code if the transport determined one
    /// * `raw_data`: The response body
    /// * `object`: The parsed object if parsing was successful
    pub fn create_from_data(http_code: Option<u32>, raw_data: String, object: Option<T>) -> (r: Self)
        ensures
            r.http_code == http_code,
            r.raw_data@ == raw_data@,
            r.object == object,
    {
        Self { http_code, raw_data, object }
    }
}

impl<T> Default for StringObjectResponse<T> {
    /// A never-executed response: absent status, empty body and no object
    fn default() -> (r: Self)
        ensures
            r.http_code is None,
            r.raw_data@ == Seq::<char>::empty(),
            r.object is None,
    {
        Self { http_code: None, raw_data: String::new(), object: None }
    }
}

} // verus!
