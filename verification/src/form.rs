use vstd::prelude::*;
use vstd::utf8::encode_utf8;

use curl::easy::Form;

use crate::error::HttpError;

verus! {

#[verifier::external_type_specification]
#[verifier::external_body]
pub struct ExForm(Form);

/// What one appended part of a multipart form holds: an inline-data part
/// carries its bytes; a file-backed part carries the path it will read from,
/// the filename sent for it and its content type.
pub enum FormPart {
    /// A part holding inline bytes
    Data {
        /// The part's name
        key: Seq<char>,
        /// The bytes sent as the part's contents
        contents: Seq<u8>,
    },
    /// A part whose contents are read from a file when the form is sent
    File {
        /// The part's name
        key: Seq<char>,
        /// The path of the file the contents are read from
        path: Seq<char>,
        /// The filename sent for the part
        filename: Seq<char>,
        /// The content type sent for the part
        content_type: Seq<char>,
    },
}

/// The parts a multipart form holds, in the order they were appended.
pub uninterp spec fn form_parts(form: Form) -> Seq<FormPart>;

/// Relies on curl's `Form::part`, `Part::contents` and `Part::add`: appends
/// one inline-data part named `key` holding `value` at the end of the form;
/// a failure of curl's form API is handed back as the error. The key must
/// not be empty: the name is passed with its length, and on a zero length
/// libcurl falls back to `strlen` on a pointer that is not nul-terminated.
#[verifier::external_body]
fn form_append_contents(form: &mut Form, key: &str, value: &[u8]) -> (r: Result<
    (),
    curl::FormError,
>)
    requires
        key@.len() != 0,
    ensures
        r is Ok ==> form_parts(*final(form)) == form_parts(*old(form)).push(
            FormPart::Data { key: key@, contents: value@ },
        ),
{
    let mut part = form.part(key);
    part.contents(value);
    part.add()
}

/// Relies on curl's `Form::part`, `Part::file`, `Part::filename`,
/// `Part::content_type` and `Part::add`: appends one file-backed part named
/// `key` at the end of the form; `add` always fails on an interior nul
/// character in the path, the filename or the content type, and appends
/// nothing then. The key must not be empty: the name is passed with its
/// length, and on a zero length libcurl falls back to `strlen` on a pointer
/// that is not nul-terminated.
#[verifier::external_body]
fn form_append_file(
    form: &mut Form,
    key: &str,
    file: &str,
    filename: &str,
    content_type: &str,
) -> (r: Result<(), curl::FormError>)
    requires
        key@.len() != 0,
    ensures
        r is Ok ==> form_parts(*final(form)) == form_parts(*old(form)).push(
            FormPart::File {
                key: key@,
                path: file@,
                filename: filename@,
                content_type: content_type@,
            },
        ),
        file@.contains('\u{0}') || filename@.contains('\u{0}') || content_type@.contains('\u{0}')
            ==> r is Err,
{
    let mut part = form.part(key);
    part.file(file);
    part.filename(filename);
    part.content_type(content_type);
    part.add()
}

/// The content type a file-backed part is sent with, guessed from the path.
pub uninterp spec fn mime_type_of(path: Seq<char>) -> Seq<char>;

/// Relies on `mime_guess::from_path`: the first guess for the path's
/// extension, or `application/octet-stream` when the extension is unknown or
/// absent; the guess depends on the path alone.
#[verifier::external_body]
fn guess_mime_type(path: &str) -> (r: String)
    ensures
        r@ == mime_type_of(path@),
{
    mime_guess::from_path(path)
        .first()
        .unwrap_or(mime_guess::mime::APPLICATION_OCTET_STREAM)
        .to_string()
}

/// The filename a file-backed part is sent with: the path's final component.
pub uninterp spec fn file_name_of(path: Seq<char>) -> Seq<char>;

/// Relies on std's `Path::file_name`: the final component of the path, or
/// empty when the path has none, under the compile target's separator rules;
/// `to_string_lossy` turns it back into text, exactly, since the input came
/// from valid UTF-8.
#[verifier::external_body]
fn path_file_name(path: &str) -> (r: String)
    ensures
        r@ == file_name_of(path@),
{
    std::path::Path::new(path).file_name().unwrap_or_default().to_string_lossy().to_string()
}

/// Derives what a file-backed part sends beside the file's contents: the
/// filename, taken from the path's final component, and the content type
/// guessed from the path's extension
///
/// # Parameters
///
/// * `file`: The file path the part will read from
pub fn file_part_metadata(file: &str) -> (r: (String, String))
    ensures
        r.0@ == file_name_of(file@),
        r.1@ == mime_type_of(file@),
{
    (path_file_name(file), guess_mime_type(file))
}

/// Easily adds a string element to a form; the key must not be empty, since
/// libcurl reads past an empty name's buffer
///
/// # Parameters
///
/// * `form`: The form to edit
/// * `key`: The data key
/// * `value`: The string data to add
pub fn add_form_string_element(form: &mut Form, key: &str, value: &str) -> (r: Result<
    (),
    HttpError,
>)
    requires
        key@.len() != 0,
    ensures
        r is Ok ==> form_parts(*final(form)) == form_parts(*old(form)).push(
            FormPart::Data { key: key@, contents: encode_utf8(value@) },
        ),
        r matches Err(e) ==> e is Form,
{
    match form_append_contents(form, key, value.as_bytes()) {
        Ok(()) => Ok(()),
        Err(e) => Err(HttpError::Form(e)),
    }
}

/// Easily adds a binary element to a form; the key must not be empty, since
/// libcurl reads past an empty name's buffer
///
/// # Parameters
///
/// * `form`: The form to edit
/// * `key`: The data key
/// * `value`: The binary data to add
pub fn add_form_binary_element(form: &mut Form, key: &str, value: &[u8]) -> (r: Result<
    (),
    HttpError,
>)
    requires
        key@.len() != 0,
    ensures
        r is Ok ==> form_parts(*final(form)) == form_parts(*old(form)).push(
            FormPart::Data { key: key@, contents: value@ },
        ),
        r matches Err(e) ==> e is Form,
{
    match form_append_contents(form, key, value) {
        Ok(()) => Ok(()),
        Err(e) => Err(HttpError::Form(e)),
    }
}

/// Easily adds a file element to a form: the part reads the file at sending
/// time, its filename is the path's final component and its content type is
/// guessed from the extension; a path holding an interior nul character is
/// always rejected. The key must not be empty, since libcurl reads past an
/// empty name's buffer
///
/// # Parameters
///
/// * `form`: The form to edit
/// * `key`: The data key
/// * `file`: The file path to add
pub fn add_form_file_element(form: &mut Form, key: &str, file: &str) -> (r: Result<(), HttpError>)
    requires
        key@.len() != 0,
    ensures
        r is Ok ==> form_parts(*final(form)) == form_parts(*old(form)).push(
            FormPart::File {
                key: key@,
                path: file@,
                filename: file_name_of(file@),
                content_type: mime_type_of(file@),
            },
        ),
        file@.contains('\u{0}') ==> r is Err,
        r matches Err(e) ==> e is Form,
{
    let meta = file_part_metadata(file);
    match form_append_file(form, key, file, meta.0.as_str(), meta.1.as_str()) {
        Ok(()) => Ok(()),
        Err(e) => Err(HttpError::Form(e)),
    }
}

} // verus!
