//! Responses and their status codes.

pub mod into;
pub mod status;

pub use status::HttpStatusCode;

use crate::request::{HeaderName, HttpHeaderMap};
use vstd::prelude::*;

verus! {

/// A response: a status, headers and a body.
#[derive(Debug)]
pub struct HttpResponse {
    pub status_code: HttpStatusCode,
    pub headers: HttpHeaderMap,
    pub body: Vec<u8>,
}

/// What a response is, as a mathematical value: the view of `HttpResponse`.
pub struct ResponseView {
    pub status: HttpStatusCode,
    /// The headers in order, each once.
    pub headers: Seq<(HeaderName, Seq<char>)>,
    pub body: Seq<u8>,
}

impl View for HttpResponse {
    type V = ResponseView;

    open spec fn view(&self) -> ResponseView {
        ResponseView {
            status: self.status_code,
            headers: self.headers.listing(),
            body: self.body@,
        }
    }
}

impl Clone for HttpResponse {
    fn clone(&self) -> (copy: Self)
        ensures
            copy@ == self@,
    {
        HttpResponse {
            status_code: self.status_code,
            headers: self.headers.clone(),
            body: self.body.clone(),
        }
    }
}

impl HttpResponse {
    /// A response with a status, no header and no body.
    pub fn empty(status: HttpStatusCode) -> (response: HttpResponse)
        ensures
            response@ == (ResponseView { status, headers: Seq::empty(), body: Seq::empty() }),
    {
        HttpResponse { status_code: status, headers: HttpHeaderMap::new(), body: Vec::new() }
    }
}

} // verus!
