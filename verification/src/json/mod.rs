//! Bodies in JSON: what the library decides about them. Turning bytes into
//! values and values into bytes is left to the caller.

use crate::extractor::ExtractorError;
use crate::request::{ContentType, HeaderName, HttpHeader, HttpHeaderMap, HttpRequest, MediaType};
use crate::response::{HttpResponse, HttpStatusCode, ResponseView};
use vstd::prelude::*;

verus! {

/// A value that came as JSON or goes out as JSON.
pub struct JsonBody<T>(pub T);

/// Whether a request says that its body is JSON.
pub open spec fn announces_json(request: HttpRequest) -> bool {
    request.headers@.contains_key(HeaderName::ContentType) && MediaType::from_text(
        request.headers@[HeaderName::ContentType],
    ) == MediaType::ApplicationJson
}

impl<T> JsonBody<T> {
    /// Whether the body of a request may be read as JSON: only a request
    /// that announces JSON is read.
    pub fn check_content_type(request: &HttpRequest) -> (checked: Result<(), ExtractorError>)
        ensures
            checked == (if announces_json(*request) {
                Ok::<(), ExtractorError>(())
            } else {
                Err(ExtractorError::UnexpectedContentType)
            }),
    {
        match request.content_type() {
            Some(ContentType::ApplicationJson) => Ok(()),
            _ => Err(ExtractorError::UnexpectedContentType),
        }
    }

    /// The argument that a handler gets for a body that was read, or the
    /// complaint that the body could not be read.
    pub fn from_parsed(parsed: Option<T>) -> (result: Result<Self, ExtractorError>)
        ensures
            result == match parsed {
                Some(value) => Ok::<Self, ExtractorError>(JsonBody(value)),
                None => Err(ExtractorError::BodyParseError),
            },
    {
        match parsed {
            Some(value) => Ok(JsonBody(value)),
            None => Err(ExtractorError::BodyParseError),
        }
    }
}

/// The response that carries a body of JSON: status 200, marked as JSON.
pub open spec fn json_response(body: Seq<u8>) -> ResponseView {
    ResponseView {
        status: HttpStatusCode::OK,
        headers: seq![(HeaderName::ContentType, "application/json"@)],
        body,
    }
}

/// The response that carries a body of JSON.
pub fn response_of_json(body: Vec<u8>) -> (response: HttpResponse)
    ensures
        response@ == json_response(body@),
{
    let mut headers = HttpHeaderMap::new();
    headers.insert(HttpHeader::ContentType, "application/json".to_owned());
    HttpResponse { status_code: HttpStatusCode::OK, headers, body }
}

} // verus!
