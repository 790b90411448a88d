use std::io::Read;

use vstd::prelude::*;

use curl::easy::{Easy, Form};

use crate::error::HttpError;
use crate::response::binary_response::BinaryResponse;

verus! {

#[verifier::external_type_specification]
#[verifier::external_body]
pub struct ExEasy(Easy);

/// Relies on curl's `Easy::post`: marks the handle's next request as a POST.
#[verifier::external_body]
fn easy_enable_post(curl: &mut Easy, enable: bool) -> Result<(), curl::Error> {
    curl.post(enable)
}

/// Relies on curl's `Easy::put`: marks the handle's next request as a PUT.
#[verifier::external_body]
fn easy_enable_put(curl: &mut Easy, enable: bool) -> Result<(), curl::Error> {
    curl.put(enable)
}

/// Relies on curl's `Easy::custom_request`: sets the verb sent in place of
/// the default one; fails on a string holding an interior nul byte.
pub assume_specification[ Easy::custom_request ](e: &mut Easy, request: &str) -> Result<
    (),
    curl::Error,
>;

/// Relies on curl's `Easy::httppost`: attaches the multipart form as the
/// request payload and marks the request as a POST.
pub assume_specification[ Easy::httppost ](e: &mut Easy, form: Form) -> Result<(), curl::Error>;

/// Relies on curl's `Easy::username`: sets the user name for authentication;
/// a string holding an interior nul character is always rejected.
pub assume_specification[ Easy::username ](e: &mut Easy, user: &str) -> (r: Result<
    (),
    curl::Error,
>)
    ensures
        user@.contains('\u{0}') ==> r is Err,
;

/// Relies on curl's `Easy::password`: sets the password for authentication;
/// a string holding an interior nul character is always rejected.
pub assume_specification[ Easy::password ](e: &mut Easy, pass: &str) -> (r: Result<
    (),
    curl::Error,
>)
    ensures
        pass@.contains('\u{0}') ==> r is Err,
;

/// Appends one received chunk at the end of the response accumulator: the
/// accumulated body grows by exactly the chunk, in order.
fn append_chunk(acc: &mut Vec<u8>, chunk: &[u8])
    ensures
        final(acc)@ == old(acc)@ + chunk@,
{
    acc.extend_from_slice(chunk);
    proof {
        assert(acc@ =~= old(acc)@ + chunk@);
    }
}

/// Relies on curl's `Transfer` API: `read_function` feeds `data` chunk by
/// chunk as the request body, `write_function` hands every received chunk to
/// the verified `append_chunk` on a fresh local buffer, `perform` runs one
/// blocking transfer, and `response_code` reads the status afterwards
/// (curl reports 0 when no status was received; the status is absent only
/// when that query itself fails). The status and the body depend on the
/// network, so nothing more is assumed of them.
#[verifier::external_body]
fn perform_transfer(curl: &mut Easy, data: Option<&[u8]>) -> Result<
    (Option<u32>, Vec<u8>),
    curl::Error,
> {
    let mut response: Vec<u8> = Vec::new();
    let mut raw_data = data.unwrap_or_default();
    {
        let mut transfer = curl.transfer();
        if !raw_data.is_empty() {
            transfer.read_function(|buffer| Ok(raw_data.read(buffer).unwrap_or_default()))?;
        }
        transfer.write_function(|buffer| {
            append_chunk(&mut response, buffer);
            Ok(buffer.len())
        })?;
        transfer.perform()?;
    }
    Ok((curl.response_code().ok(), response))
}

/// Executes an easy request: performs one blocking transfer on the handle as
/// it is configured, accumulating the response body in a fresh buffer, and
/// wraps what came back; a transport-level failure is returned as an error,
/// never as a response
///
/// # Parameters
///
/// * `curl`: The request to execute
/// * `data`: The request body to stream, if any
pub fn curl_easy_execute(curl: &mut Easy, data: Option<&[u8]>) -> (r: Result<
    BinaryResponse,
    HttpError,
>)
    ensures
        r matches Err(e) ==> e is Transport,
{
    match perform_transfer(curl, data) {
        Ok((code, body)) => Ok(BinaryResponse { http_code: code, raw_data: body }),
        Err(e) => Err(HttpError::Transport(e)),
    }
}

/// Executes an HTTP easy request with a GET
///
/// # Parameters
///
/// * `curl`: The request to execute
pub fn get(curl: &mut Easy) -> (r: Result<BinaryResponse, HttpError>)
    ensures
        r matches Err(e) ==> e is Transport,
{
    curl_easy_execute(curl, None)
}

/// Executes an HTTP easy request with a POST; if a form is supplied it is
/// attached as the request payload and takes precedence over `data`
///
/// # Parameters
///
/// * `curl`: The request to execute
/// * `data`: The data to send
/// * `form`: The multipart POST form
pub fn post(curl: &mut Easy, data: Option<&[u8]>, form: Option<Form>) -> (r: Result<
    BinaryResponse,
    HttpError,
>)
    ensures
        r matches Err(e) ==> e is Transport,
{
    match easy_enable_post(curl, true) {
        Ok(()) => (),
        Err(e) => {
            return Err(HttpError::Transport(e));
        },
    }
    match form {
        Some(v) => match curl.httppost(v) {
            Ok(()) => (),
            Err(e) => {
                return Err(HttpError::Transport(e));
            },
        },
        None => (),
    }
    curl_easy_execute(curl, data)
}

/// Executes an HTTP easy request with a PUT
///
/// # Parameters
///
/// * `curl`: The request to execute
/// * `data`: The data to send
pub fn put(curl: &mut Easy, data: Option<&[u8]>) -> (r: Result<BinaryResponse, HttpError>)
    ensures
        r matches Err(e) ==> e is Transport,
{
    match easy_enable_put(curl, true) {
        Ok(()) => (),
        Err(e) => {
            return Err(HttpError::Transport(e));
        },
    }
    curl_easy_execute(curl, data)
}

/// Executes an HTTP easy request with a DELETE
///
/// # Parameters
///
/// * `curl`: The request to execute
pub fn delete(curl: &mut Easy) -> (r: Result<BinaryResponse, HttpError>)
    ensures
        r matches Err(e) ==> e is Transport,
{
    match curl.custom_request("DELETE") {
        Ok(()) => (),
        Err(e) => {
            return Err(HttpError::Transport(e));
        },
    }
    curl_easy_execute(curl, None)
}

/// Adds basic authentication to a request; a credential holding an interior
/// nul character is always rejected
///
/// # Parameters
///
/// * `curl`: The request to edit
/// * `username`: The username
/// * `password`: The password
pub fn basic_auth(curl: &mut Easy, username: &str, password: &str) -> (r: Result<(), HttpError>)
    ensures
        username@.contains('\u{0}') || password@.contains('\u{0}') ==> r is Err,
        r matches Err(e) ==> e is Transport,
{
    match curl.username(username) {
        Ok(()) => (),
        Err(e) => {
            return Err(HttpError::Transport(e));
        },
    }
    match curl.password(password) {
        Ok(()) => (),
        Err(e) => {
            return Err(HttpError::Transport(e));
        },
    }
    Ok(())
}

} // verus!
