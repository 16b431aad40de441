//! Requests and the names that occur in them.

pub mod header;

pub use header::{HeaderName, HttpHeader};

use crate::list_map::ListMap;
use crate::parser::body::LazyBodyReader;
use crate::router::flow::RequestFlow;
use crate::text::same_text;
use std::sync::Arc;
use vstd::prelude::*;
use vstd::std_specs::cmp::PartialEqSpecImpl;

verus! {

/// The headers of a request or a response. A header occurs once; writing it
/// again replaces its value.
pub type HttpHeaderMap = ListMap<HttpHeader>;

/// A map from names to texts, in the order in which the names came.
pub type TextMap = ListMap<String>;

#[derive(Debug, Clone, Copy, PartialEq, Eq, Hash, Structural)]
pub enum HttpProtocol {
    HTTP1,
    HTTP2,
}

#[derive(Debug, Clone, Copy, PartialEq, Eq, Hash, Structural)]
pub enum HttpScheme {
    HTTP,
    HTTPS,
}

impl HttpScheme {
    /// `https` is HTTPS; every other text is HTTP.
    pub open spec fn spec_from_str(scheme: Seq<char>) -> HttpScheme {
        if scheme == "https"@ {
            HttpScheme::HTTPS
        } else {
            HttpScheme::HTTP
        }
    }

    pub fn from_str(scheme: &str) -> (s: HttpScheme)
        ensures
            s == Self::spec_from_str(scheme@),
    {
        if same_text(scheme, "https") {
            HttpScheme::HTTPS
        } else {
            HttpScheme::HTTP
        }
    }
}

#[derive(Debug, PartialOrd, Ord, PartialEq, Eq, Hash, Clone, Copy, Structural)]
pub enum HttpMethod {
    GET,
    POST,
    PUT,
    DELETE,
    OPTIONS,
    HEAD,
    PATCH,
    TRACE,
}

impl HttpMethod {
    /// The method as it is written in a request line.
    pub open spec fn spec_name(self) -> Seq<char> {
        match self {
            HttpMethod::GET => "GET"@,
            HttpMethod::POST => "POST"@,
            HttpMethod::PUT => "PUT"@,
            HttpMethod::DELETE => "DELETE"@,
            HttpMethod::OPTIONS => "OPTIONS"@,
            HttpMethod::HEAD => "HEAD"@,
            HttpMethod::PATCH => "PATCH"@,
            HttpMethod::TRACE => "TRACE"@,
        }
    }

    /// The method that a text names, if it names one. Case matters.
    pub open spec fn spec_from_str(method: Seq<char>) -> Option<HttpMethod> {
        if method == "GET"@ {
            Some(HttpMethod::GET)
        } else if method == "POST"@ {
            Some(HttpMethod::POST)
        } else if method == "PUT"@ {
            Some(HttpMethod::PUT)
        } else if method == "DELETE"@ {
            Some(HttpMethod::DELETE)
        } else if method == "OPTIONS"@ {
            Some(HttpMethod::OPTIONS)
        } else if method == "HEAD"@ {
            Some(HttpMethod::HEAD)
        } else if method == "PATCH"@ {
            Some(HttpMethod::PATCH)
        } else if method == "TRACE"@ {
            Some(HttpMethod::TRACE)
        } else {
            None
        }
    }

    pub fn from_str(method: &str) -> (m: Option<HttpMethod>)
        ensures
            m == Self::spec_from_str(method@),
    {
        if same_text(method, "GET") {
            Some(HttpMethod::GET)
        } else if same_text(method, "POST") {
            Some(HttpMethod::POST)
        } else if same_text(method, "PUT") {
            Some(HttpMethod::PUT)
        } else if same_text(method, "DELETE") {
            Some(HttpMethod::DELETE)
        } else if same_text(method, "OPTIONS") {
            Some(HttpMethod::OPTIONS)
        } else if same_text(method, "HEAD") {
            Some(HttpMethod::HEAD)
        } else if same_text(method, "PATCH") {
            Some(HttpMethod::PATCH)
        } else if same_text(method, "TRACE") {
            Some(HttpMethod::TRACE)
        } else {
            None
        }
    }

    /// The method as it is written in a request line.
    pub fn as_str(&self) -> (name: &'static str)
        ensures
            name@ == self.spec_name(),
    {
        match self {
            HttpMethod::GET => "GET",
            HttpMethod::POST => "POST",
            HttpMethod::PUT => "PUT",
            HttpMethod::DELETE => "DELETE",
            HttpMethod::OPTIONS => "OPTIONS",
            HttpMethod::HEAD => "HEAD",
            HttpMethod::PATCH => "PATCH",
            HttpMethod::TRACE => "TRACE",
        }
    }
}

/// The media type of a body.
#[derive(Debug, Hash)]
pub enum ContentType {
    TextPlain,
    TextHtml,
    TextXml,
    ApplicationJson,
    ApplicationXml,
    ApplicationOctetStream,
    MultipartFormData,
    Custom(String),
}

/// What a media type is, as a mathematical value: the view of `ContentType`.
pub enum MediaType {
    TextPlain,
    TextHtml,
    TextXml,
    ApplicationJson,
    ApplicationXml,
    ApplicationOctetStream,
    MultipartFormData,
    Custom(Seq<char>),
}

impl View for ContentType {
    type V = MediaType;

    open spec fn view(&self) -> MediaType {
        match *self {
            ContentType::TextPlain => MediaType::TextPlain,
            ContentType::TextHtml => MediaType::TextHtml,
            ContentType::TextXml => MediaType::TextXml,
            ContentType::ApplicationJson => MediaType::ApplicationJson,
            ContentType::ApplicationXml => MediaType::ApplicationXml,
            ContentType::ApplicationOctetStream => MediaType::ApplicationOctetStream,
            ContentType::MultipartFormData => MediaType::MultipartFormData,
            ContentType::Custom(text) => MediaType::Custom(text@),
        }
    }
}

impl MediaType {
    /// The media type that a text names. A text that names none of the known
    /// ones is a custom type.
    pub open spec fn from_text(text: Seq<char>) -> MediaType {
        if text == "text/plain"@ {
            MediaType::TextPlain
        } else if text == "text/html"@ {
            MediaType::TextHtml
        } else if text == "text/xml"@ {
            MediaType::TextXml
        } else if text == "application/json"@ {
            MediaType::ApplicationJson
        } else if text == "application/xml"@ {
            MediaType::ApplicationXml
        } else if text == "application/octet-stream"@ {
            MediaType::ApplicationOctetStream
        } else if text == "multipart/form-data"@ {
            MediaType::MultipartFormData
        } else {
            MediaType::Custom(text)
        }
    }

    /// The text of a media type.
    pub open spec fn text(self) -> Seq<char> {
        match self {
            MediaType::TextPlain => "text/plain"@,
            MediaType::TextHtml => "text/html"@,
            MediaType::TextXml => "text/xml"@,
            MediaType::ApplicationJson => "application/json"@,
            MediaType::ApplicationXml => "application/xml"@,
            MediaType::ApplicationOctetStream => "application/octet-stream"@,
            MediaType::MultipartFormData => "multipart/form-data"@,
            MediaType::Custom(text) => text,
        }
    }
}

impl ContentType {
    pub fn from_str(content_type: &str) -> (t: ContentType)
        ensures
            t@ == MediaType::from_text(content_type@),
    {
        if same_text(content_type, "text/plain") {
            ContentType::TextPlain
        } else if same_text(content_type, "text/html") {
            ContentType::TextHtml
        } else if same_text(content_type, "text/xml") {
            ContentType::TextXml
        } else if same_text(content_type, "application/json") {
            ContentType::ApplicationJson
        } else if same_text(content_type, "application/xml") {
            ContentType::ApplicationXml
        } else if same_text(content_type, "application/octet-stream") {
            ContentType::ApplicationOctetStream
        } else if same_text(content_type, "multipart/form-data") {
            ContentType::MultipartFormData
        } else {
            ContentType::Custom(content_type.to_owned())
        }
    }

    pub fn to_str(&self) -> (text: String)
        ensures
            text@ == self@.text(),
    {
        match self {
            ContentType::TextPlain => "text/plain".to_owned(),
            ContentType::TextHtml => "text/html".to_owned(),
            ContentType::TextXml => "text/xml".to_owned(),
            ContentType::ApplicationJson => "application/json".to_owned(),
            ContentType::ApplicationXml => "application/xml".to_owned(),
            ContentType::ApplicationOctetStream => "application/octet-stream".to_owned(),
            ContentType::MultipartFormData => "multipart/form-data".to_owned(),
            ContentType::Custom(text) => text.clone(),
        }
    }

    fn ordinal(&self) -> (n: u8)
        ensures
            n == 0 <==> self@ is Custom,
            n == 1 <==> self@ is TextPlain,
            n == 2 <==> self@ is TextHtml,
            n == 3 <==> self@ is TextXml,
            n == 4 <==> self@ is ApplicationJson,
            n == 5 <==> self@ is ApplicationXml,
            n == 6 <==> self@ is ApplicationOctetStream,
            n == 7 <==> self@ is MultipartFormData,
    {
        match self {
            ContentType::Custom(_) => 0,
            ContentType::TextPlain => 1,
            ContentType::TextHtml => 2,
            ContentType::TextXml => 3,
            ContentType::ApplicationJson => 4,
            ContentType::ApplicationXml => 5,
            ContentType::ApplicationOctetStream => 6,
            ContentType::MultipartFormData => 7,
        }
    }
}

impl Clone for ContentType {
    fn clone(&self) -> (copy: Self)
        ensures
            copy@ == self@,
    {
        match self {
            ContentType::TextPlain => ContentType::TextPlain,
            ContentType::TextHtml => ContentType::TextHtml,
            ContentType::TextXml => ContentType::TextXml,
            ContentType::ApplicationJson => ContentType::ApplicationJson,
            ContentType::ApplicationXml => ContentType::ApplicationXml,
            ContentType::ApplicationOctetStream => ContentType::ApplicationOctetStream,
            ContentType::MultipartFormData => ContentType::MultipartFormData,
            ContentType::Custom(text) => ContentType::Custom(text.clone()),
        }
    }
}

impl PartialEq for ContentType {
    fn eq(&self, other: &ContentType) -> (b: bool) {
        match (self, other) {
            (ContentType::Custom(a), ContentType::Custom(b)) => same_text(a.as_str(), b.as_str()),
            _ => self.ordinal() == other.ordinal(),
        }
    }
}

impl PartialEqSpecImpl for ContentType {
    open spec fn obeys_eq_spec() -> bool {
        true
    }

    open spec fn eq_spec(&self, other: &ContentType) -> bool {
        self@ == other@
    }
}

impl Eq for ContentType {

}

/// What routing bound to a request: the parameters captured from its path
/// and the pairs of its query.
#[derive(Debug)]
pub struct RoutePathValues {
    pub params: TextMap,
    pub queries: TextMap,
}

impl Clone for RoutePathValues {
    fn clone(&self) -> (copy: Self)
        ensures
            copy.params.listing() == self.params.listing(),
            copy.queries.listing() == self.queries.listing(),
    {
        RoutePathValues { params: self.params.clone(), queries: self.queries.clone() }
    }
}

/// A request, as a parser made it and as the router hands it on.
pub struct HttpRequest {
    pub protocol: HttpProtocol,
    pub scheme: HttpScheme,
    /// The path as it was written, with its query.
    pub path: String,
    pub method: HttpMethod,
    pub headers: HttpHeaderMap,
    /// The flow of the request; the router sets it once.
    pub flow: Option<Arc<RequestFlow>>,
    /// The address the request came from, as text.
    pub peer_addr: String,
    pub content_length: usize,
    pub body_reader: LazyBodyReader,
    /// What routing bound; the router sets it once.
    pub path_values: Option<RoutePathValues>,
}

impl HttpRequest {
    /// The body, once it has been read from the connection.
    pub fn read_body(&self) -> (body: Option<&Vec<u8>>)
        ensures
            body is Some == self.body_reader.spec_consumed(),
            body matches Some(b) ==> b@ == self.body_reader.content(),
    {
        self.body_reader.read_all()
    }

    /// The media type that the request's `Content-Type` header names.
    pub fn content_type(&self) -> (found: Option<ContentType>)
        ensures
            found is Some == self.headers@.contains_key(HeaderName::ContentType),
            found matches Some(t) ==> t@ == MediaType::from_text(
                self.headers@[HeaderName::ContentType],
            ),
    {
        match self.headers.get(&HttpHeader::ContentType) {
            Some(content_type) => Some(ContentType::from_str(content_type.as_str())),
            None => None,
        }
    }

    /// Binds what routing found to the request. This happens once.
    pub fn set_route_path(&mut self, values: RoutePathValues)
        requires
            old(self).path_values is None,
        ensures
            final(self).path_values == Some(values),
            final(self).protocol == old(self).protocol,
            final(self).scheme == old(self).scheme,
            final(self).path == old(self).path,
            final(self).method == old(self).method,
            final(self).headers == old(self).headers,
            final(self).flow == old(self).flow,
            final(self).peer_addr == old(self).peer_addr,
            final(self).content_length == old(self).content_length,
            final(self).body_reader == old(self).body_reader,
    {
        self.path_values = Some(values);
    }

    /// Gives the request its flow. This happens once.
    pub fn set_flow(&mut self, flow: Arc<RequestFlow>)
        requires
            old(self).flow is None,
        ensures
            final(self).flow == Some(flow),
            final(self).protocol == old(self).protocol,
            final(self).scheme == old(self).scheme,
            final(self).path == old(self).path,
            final(self).method == old(self).method,
            final(self).headers == old(self).headers,
            final(self).path_values == old(self).path_values,
            final(self).peer_addr == old(self).peer_addr,
            final(self).content_length == old(self).content_length,
            final(self).body_reader == old(self).body_reader,
    {
        self.flow = Some(flow);
    }
}

} // verus!
