use vstd::prelude::*;
use vstd::string::StringExecFns;

use curl::easy::List;

use crate::error::HttpError;

verus! {

#[verifier::external_type_specification]
#[verifier::external_body]
pub struct ExList(List);

/// The lines a header list holds, in the order they were appended.
pub uninterp spec fn header_lines(list: List) -> Seq<Seq<char>>;

/// Relies on curl's `List::append`: adds one line at the end of the list;
/// it fails exactly on a string holding an interior nul character, and then
/// appends nothing.
#[verifier::external_body]
fn list_append(list: &mut List, line: &str) -> (r: Result<(), curl::Error>)
    ensures
        r is Ok ==> header_lines(*final(list)) == header_lines(*old(list)).push(line@),
        r is Err ==> header_lines(*final(list)) == header_lines(*old(list)),
        r is Ok <==> !line@.contains('\u{0}'),
{
    list.append(line)
}

/// Adds a header in the list, as the line `"{key}: {value}"`; it fails
/// exactly when the line would hold an interior nul character
///
/// # Parameters
///
/// * `headers_list`: The list where you add
/// * `key`: The header key
/// * `value`: The header value
pub fn add_header(headers_list: &mut List, key: &str, value: &str) -> (r: Result<(), HttpError>)
    ensures
        r is Ok ==> header_lines(*final(headers_list)) == header_lines(*old(headers_list)).push(
            key@ + ": "@ + value@,
        ),
        r is Err ==> header_lines(*final(headers_list)) == header_lines(*old(headers_list)),
        r is Ok <==> !(key@ + ": "@ + value@).contains('\u{0}'),
        r matches Err(e) ==> e is Transport,
{
    let mut line = key.to_owned();
    line.append(": ");
    line.append(value);
    match list_append(headers_list, line.as_str()) {
        Ok(()) => Ok(()),
        Err(e) => Err(HttpError::Transport(e)),
    }
}

} // verus!
