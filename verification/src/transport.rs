//! What crosses the boundary to the HTTP transport: the request as it is
//! sent and the response as it came back.

use crate::form::{fields_of, Fields};
use crate::request::Method;
use vstd::prelude::*;

verus! {

/// A request with everything the transport needs to send it.
#[derive(Debug, Clone, PartialEq, Eq)]
pub struct ResolvedRequest {
    pub method: Method,
    /// The absolute URL, with the query string where there is one.
    pub full_url: String,
    /// Header names and values, in the order in which they are sent.
    pub headers: Vec<(String, String)>,
    /// The form-encoded body of a POST.
    pub encoded_body: Option<Vec<u8>>,
}

/// A resolved request as plain values.
pub ghost struct ResolvedModel {
    pub method: Method,
    pub full_url: Seq<char>,
    pub headers: Fields,
    pub encoded_body: Option<Seq<u8>>,
}

impl View for ResolvedRequest {
    type V = ResolvedModel;

    open spec fn view(&self) -> ResolvedModel {
        ResolvedModel {
            method: self.method,
            full_url: self.full_url@,
            headers: fields_of(self.headers@),
            encoded_body: match self.encoded_body {
                Some(body) => Some(body@),
                None => None,
            },
        }
    }
}

/// The status and the body of a response, before either is interpreted.
#[derive(Debug, Clone, PartialEq, Eq)]
pub struct RawResponse {
    pub status: u16,
    pub body: Vec<u8>,
}

/// Whether `reqwest::Url::parse` accepts a text as an absolute URL.
pub uninterp spec fn parses_as_url(text: Seq<char>) -> bool;

/// `reqwest::Url::parse`, asked only whether it succeeds. The parser reads
/// nothing but its argument, so the answer is a function of the text.
#[verifier::external_body]
pub(crate) fn is_absolute_url(text: &str) -> (ok: bool)
    ensures
        ok == parses_as_url(text@),
{
    reqwest::Url::parse(text).is_ok()
}

} // verus!
