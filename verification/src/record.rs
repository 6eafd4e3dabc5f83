//! The shape of a captured request: the reserved paths that the reading
//! endpoints own, the single-line record format, and the fixed response text.

use vstd::prelude::*;
use crate::text::str_eq;

verus! {

/// The paths that the reading endpoints answer on. A request to one of them
/// is served without being captured, so that browsing the log does not
/// pollute it.
pub open spec fn is_reserved(path: Seq<char>) -> bool {
    path == "/ui"@ || path == "/download"@ || path == "/api"@
}

/// The text of a captured request: one line of tab-separated labeled fields,
/// terminated by a newline.
pub open spec fn record_of(
    time: Seq<char>,
    method: Seq<char>,
    path: Seq<char>,
    headers: Seq<char>,
    body: Seq<char>,
) -> Seq<char> {
    "Time: "@ + time + "\tMethod: "@ + method + "\tPath: "@ + path + "\tHeaders: "@ + headers
        + "\tBody: "@ + body + "\n"@
}

/// The body of the response that every capture request receives.
pub open spec fn response_text() -> Seq<char> {
    "Request processed successfully"@
}

/// Decides whether a path is one of the reserved reading endpoints.
pub fn is_reserved_path(path: &str) -> (r: bool)
    ensures
        r == is_reserved(path@),
{
    str_eq(path, "/ui") || str_eq(path, "/download") || str_eq(path, "/api")
}

/// Formats a captured request as its record line.
pub fn format_record(
    time: &str,
    method: &str,
    path: &str,
    headers: &str,
    body: &str,
) -> (r: String)
    ensures
        r@ == record_of(time@, method@, path@, headers@, body@),
{
    let mut r = String::from_str("Time: ");
    r.append(time);
    r.append("\tMethod: ");
    r.append(method);
    r.append("\tPath: ");
    r.append(path);
    r.append("\tHeaders: ");
    r.append(headers);
    r.append("\tBody: ");
    r.append(body);
    r.append("\n");
    r
}

/// The response body that every capture request receives, reserved or not.
pub fn response_body() -> (r: String)
    ensures
        r@ == response_text(),
{
    String::from_str("Request processed successfully")
}

} // verus!
