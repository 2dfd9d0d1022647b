//! The two terminal responses a request can end in: a redirect to the
//! signed URL, or a diagnostic error when the credential source failed.

use vstd::prelude::*;
use vstd::string::StringExecFns;
use crate::text::has_substring;
use crate::text::lemma_concat_contains_middle;

verus! {

/// A description of the HTTP response to send, in plain values: the status
/// code, the `Location` header if any, and the body.
pub struct ResponsePlan {
    pub status: u16,
    pub location: Option<String>,
    pub body: String,
}

/// The diagnostic body of a failure response: the underlying error framed
/// by a fixed explanation and an operator contact hint.
pub open spec fn auth_error_body(err: Seq<char>) -> Seq<char> {
    "Internal error (auth-related) while generating a cache URI: "@ + err
        + "\nPlease notify the storage proxy operators."@
}

/// The terminal success: a `302 Found` redirect whose `Location` header is
/// the signed URL and whose body is empty.
pub fn redirect_response(url: String) -> (p: ResponsePlan)
    ensures
        p.status == 302,
        p.location == Some(url),
        p.body@ == Seq::<char>::empty(),
{
    ResponsePlan { status: 302, location: Some(url), body: String::new() }
}

/// The terminal failure: a `500 Internal Server Error` whose body carries
/// the credential source's own error text.
pub fn auth_error_response(err: &str) -> (p: ResponsePlan)
    ensures
        p.status == 500,
        p.location.is_none(),
        p.body@ == auth_error_body(err@),
{
    let mut body = ("Internal error (auth-related) while generating a cache URI: ").to_owned();
    body.append(err);
    body.append("\nPlease notify the storage proxy operators.");
    ResponsePlan { status: 500, location: None, body }
}

/// Whatever the underlying error was, the diagnostic body contains its
/// text, so a failure is never reported without its cause.
pub proof fn lemma_auth_error_body_carries_error(err: Seq<char>)
    ensures
        has_substring(auth_error_body(err), err),
{
    lemma_concat_contains_middle(
        "Internal error (auth-related) while generating a cache URI: "@,
        err,
        "\nPlease notify the storage proxy operators."@,
    );
}

} // verus!
