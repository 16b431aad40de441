//! What a handler may return: every value that can be turned into a response.

use crate::request::{HeaderName, HttpHeader, HttpHeaderMap};
use crate::response::{HttpResponse, HttpStatusCode, ResponseView};
use vstd::prelude::*;
use vstd::string::StringSliceAdditionalSpecFns;

verus! {

/// The headers of a response that says only that it is plain text.
pub open spec fn plain_text_headers() -> Seq<(HeaderName, Seq<char>)> {
    seq![(HeaderName::ContentType, "text/plain"@)]
}

/// The response that a text becomes: status 200, marked as plain text, with
/// the text's bytes as its body.
pub open spec fn text_response(text: Seq<char>) -> ResponseView {
    ResponseView {
        status: HttpStatusCode::OK,
        headers: plain_text_headers(),
        body: vstd::utf8::encode_utf8(text),
    }
}

/// A value that can be turned into a response.
pub trait IntoResponse: Sized {
    /// The response that the value becomes.
    spec fn response(self) -> ResponseView;

    fn into_response(self) -> (response: HttpResponse)
        ensures
            response@ == self.response(),
    ;
}

fn plain_text(status: HttpStatusCode, body: Vec<u8>) -> (response: HttpResponse)
    ensures
        response@ == (ResponseView { status, headers: plain_text_headers(), body: body@ }),
{
    let mut headers = HttpHeaderMap::new();
    headers.insert(HttpHeader::ContentType, "text/plain".to_owned());
    HttpResponse { status_code: status, headers, body }
}

impl IntoResponse for HttpResponse {
    open spec fn response(self) -> ResponseView {
        self@
    }

    fn into_response(self) -> (response: HttpResponse) {
        self
    }
}

impl IntoResponse for &str {
    open spec fn response(self) -> ResponseView {
        text_response(self@)
    }

    fn into_response(self) -> (response: HttpResponse) {
        plain_text(HttpStatusCode::OK, self.as_bytes_vec())
    }
}

impl IntoResponse for String {
    open spec fn response(self) -> ResponseView {
        text_response(self@)
    }

    fn into_response(self) -> (response: HttpResponse) {
        plain_text(HttpStatusCode::OK, self.as_str().as_bytes_vec())
    }
}

impl IntoResponse for HttpStatusCode {
    open spec fn response(self) -> ResponseView {
        ResponseView { status: self, headers: plain_text_headers(), body: Seq::empty() }
    }

    fn into_response(self) -> (response: HttpResponse) {
        plain_text(self, Vec::new())
    }
}

impl<T: IntoResponse> IntoResponse for (HttpStatusCode, T) {
    open spec fn response(self) -> ResponseView {
        ResponseView { status: self.0, headers: self.1.response().headers, body: self.1.response().body }
    }

    fn into_response(self) -> (response: HttpResponse) {
        let (status, other) = self;
        let inner = other.into_response();
        HttpResponse { status_code: status, headers: inner.headers, body: inner.body }
    }
}

} // verus!
