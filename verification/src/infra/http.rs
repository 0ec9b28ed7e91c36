//! Requests that are passed on to an HTTP server.

use vstd::prelude::*;
use crate::error::{AppError, AppErrorView, ErrorKind};

verus! {

/// The characters that a method name may hold: the `tchar` of HTTP.
pub open spec fn is_token_char(c: char) -> bool {
    "!#$%&'*+-.^_`|~0123456789ABCDEFGHIJKLMNOPQRSTUVWXYZabcdefghijklmnopqrstuvwxyz"@.contains(c)
}

/// `s` can name an HTTP method: it is not empty and holds token characters
/// only.
pub open spec fn is_method_token(s: Seq<char>) -> bool {
    &&& s.len() > 0
    &&& forall|i: int| 0 <= i < s.len() ==> is_token_char(#[trigger] s[i])
}

/// Whether `url::Url::parse` accepts a text as an absolute URL.
pub uninterp spec fn url_parses(text: Seq<char>) -> bool;

/// Whether `method` names an HTTP method: `reqwest::Method::from_bytes`
/// accepts its bytes.
///
/// Believed of the `http` crate, whose `Method` this is, not proved:
/// `from_bytes` refuses the empty name and any name with a byte outside its
/// table of method characters, and accepts every other name, standard or
/// not, of any length.
#[verifier::external_body]
fn is_http_method(method: &str) -> (accepted: bool)
    ensures
        accepted == is_method_token(method@),
{
    reqwest::Method::from_bytes(method.as_bytes()).is_ok()
}

/// Whether `url` is an absolute URL: `reqwest::Url::parse` accepts it.
///
/// Believed of the `url` crate, whose `Url` this is, not proved: whether
/// `parse` accepts a text depends on the text alone.
#[verifier::external_body]
fn is_absolute_url(url: &str) -> (accepted: bool)
    ensures
        accepted == url_parses(url@),
{
    reqwest::Url::parse(url).is_ok()
}

/// The detail of the failure that refuses a method name.
pub open spec fn invalid_method_detail() -> Seq<char> {
    "Invalid HTTP method"@
}

/// The detail of the failure that refuses a URL.
pub open spec fn invalid_url_detail() -> Seq<char> {
    "Invalid URL"@
}

/// Whether a request may be sent, given whether its method and its URL
/// were accepted. The method is judged first.
pub fn request_verdict(method_accepted: bool, url_accepted: bool) -> (r: Result<(), AppError>)
    ensures
        !method_accepted ==> (r matches Err(e) && e@ == (AppErrorView {
            kind: ErrorKind::Unknown,
            detail: invalid_method_detail(),
        })),
        method_accepted && !url_accepted ==> (r matches Err(e) && e@ == (AppErrorView {
            kind: ErrorKind::Unknown,
            detail: invalid_url_detail(),
        })),
        method_accepted && url_accepted ==> r is Ok,
{
    if !method_accepted {
        Err(AppError::Unknown("Invalid HTTP method".to_owned()))
    } else if !url_accepted {
        Err(AppError::Unknown("Invalid URL".to_owned()))
    } else {
        Ok(())
    }
}

/// Whether a request with this method and this URL may be sent: the method
/// must name an HTTP method and the URL must be absolute.
pub fn check_request(method: &str, url: &str) -> (r: Result<(), AppError>)
    ensures
        !is_method_token(method@) ==> (r matches Err(e) && e@ == (AppErrorView {
            kind: ErrorKind::Unknown,
            detail: invalid_method_detail(),
        })),
        is_method_token(method@) && !url_parses(url@) ==> (r matches Err(e) && e@ == (
        AppErrorView { kind: ErrorKind::Unknown, detail: invalid_url_detail() })),
        is_method_token(method@) && url_parses(url@) ==> r is Ok,
{
    request_verdict(is_http_method(method), is_absolute_url(url))
}

} // verus!
