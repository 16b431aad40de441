//! The parser of HTTP/1.1: a request line, header lines up to an empty line,
//! and a body whose length the headers give.

use crate::list_map::{key_index, listing_insert};
use crate::parser::body::LazyBodyReader;
use crate::parser::HttpParserError;
use crate::request::{
    HeaderName, HttpHeader, HttpHeaderMap, HttpMethod, HttpProtocol, HttpRequest, HttpScheme,
};
use crate::text::{
    decode_text, find_byte, find_from, lemma_find_from, lowercase, parse_decimal, parse_usize,
    skip_whitespace, skip_whitespace_at, skip_word, skip_word_at, string_of, to_lowercase, trim,
    trim_text,
};
use vstd::prelude::*;
use vstd::utf8::{decode_utf8, valid_utf8};

verus! {

/// No header line may be longer than this.
pub const MAX_HEADER_SIZE: usize = 8192;

/// What the head of a request says.
pub struct RequestHead {
    pub method: HttpMethod,
    pub path: Seq<char>,
    pub headers: Seq<(HeaderName, Seq<char>)>,
    pub content_length: usize,
}

/// Where the line that starts at `from` ends: behind its line feed, or at
/// the end of the bytes if there is none.
pub open spec fn line_end(data: Seq<u8>, from: int) -> int {
    let feed = find_from(data, 10u8, from);
    if feed < data.len() {
        feed + 1
    } else {
        data.len() as int
    }
}

/// What a request line says: a method and a path, the first two words of
/// the line.
pub open spec fn request_line(line: Seq<u8>) -> Result<(HttpMethod, Seq<char>), HttpParserError> {
    if line.len() < 5 || !valid_utf8(line) {
        Err(HttpParserError::InvalidRequestLine)
    } else {
        let text = decode_utf8(line);
        let method_from = skip_whitespace(text, 0);
        let method_to = skip_word(text, method_from);
        let path_from = skip_whitespace(text, method_to);
        let path_to = skip_word(text, path_from);
        if method_from >= text.len() || path_from >= text.len() {
            Err(HttpParserError::InvalidRequestLine)
        } else {
            match HttpMethod::spec_from_str(text.subrange(method_from, method_to)) {
                Some(method) => Ok((method, text.subrange(path_from, path_to))),
                None => Err(HttpParserError::InvalidMethod),
            }
        }
    }
}

/// The headers after one more header line. A line without a colon changes
/// nothing. The name is what stands before the first colon, without the white
/// space around it and in lower case; the value is the rest, without the
/// white space around it.
pub open spec fn header_line(line: Seq<u8>, headers: Seq<(HeaderName, Seq<char>)>) -> Result<
    Seq<(HeaderName, Seq<char>)>,
    HttpParserError,
> {
    let colon = find_from(line, 58u8, 0);
    if line.len() > MAX_HEADER_SIZE {
        Err(HttpParserError::HeaderLine)
    } else if colon >= line.len() {
        Ok(headers)
    } else if !valid_utf8(line.subrange(0, colon)) || !valid_utf8(
        line.subrange(colon + 1, line.len() as int),
    ) {
        Err(HttpParserError::HeaderLine)
    } else {
        let name = lowercase(trim(decode_utf8(line.subrange(0, colon))));
        let value = trim(decode_utf8(line.subrange(colon + 1, line.len() as int)));
        Ok(listing_insert(headers, HeaderName::from_name(name), value))
    }
}

/// The headers after the header lines that start at `from`, up to the first
/// line of at most two bytes or the end of the bytes.
pub open spec fn header_lines(data: Seq<u8>, from: int, headers: Seq<(HeaderName, Seq<char>)>) -> Result<
    Seq<(HeaderName, Seq<char>)>,
    HttpParserError,
>
    decreases data.len() - from,
{
    if from < 0 || from >= data.len() {
        Ok(headers)
    } else {
        let end = line_end(data, from);
        proof {
            lemma_find_from(data, 10u8, from);
        }
        if end - from <= 2 {
            Ok(headers)
        } else {
            match header_line(data.subrange(from, end), headers) {
                Ok(more) => header_lines(data, end, more),
                Err(e) => Err(e),
            }
        }
    }
}

/// Where the head of a request ends: behind the first line of at most two
/// bytes at or after `from`, or at the end of the bytes.
pub open spec fn head_end(data: Seq<u8>, from: int) -> int
    decreases data.len() - from,
{
    if from < 0 || from >= data.len() {
        data.len() as int
    } else {
        let end = line_end(data, from);
        proof {
            lemma_find_from(data, 10u8, from);
        }
        if end - from <= 2 {
            end
        } else {
            head_end(data, end)
        }
    }
}

/// The content length that headers give: the number that the
/// `Content-Length` header writes.
pub open spec fn content_length(headers: Seq<(HeaderName, Seq<char>)>) -> Option<usize> {
    let at = key_index(headers, HeaderName::ContentLength, 0);
    if at >= headers.len() {
        None
    } else {
        match parse_decimal(headers[at].1) {
            Some(n) => if n <= usize::MAX {
                Some(n as usize)
            } else {
                None
            },
            None => None,
        }
    }
}

/// What the head of a request says, or why it says nothing.
pub open spec fn request_head(data: Seq<u8>) -> Result<RequestHead, HttpParserError> {
    let first = line_end(data, 0);
    match request_line(data.subrange(0, first)) {
        Err(e) => Err(e),
        Ok((method, path)) => match header_lines(data, first, Seq::empty()) {
            Err(e) => Err(e),
            Ok(headers) => match content_length(headers) {
                None => Err(HttpParserError::InvalidContentLength),
                Some(n) => Ok(RequestHead { method, path, headers, content_length: n }),
            },
        },
    }
}

/// Whether a request is the one that a parser makes of a head that came
/// from `addr`: it says what the head says, its body is unread, and routing
/// has bound nothing to it yet.
pub open spec fn is_fresh_request(
    request: HttpRequest,
    protocol: HttpProtocol,
    scheme: HttpScheme,
    head: RequestHead,
    addr: Seq<char>,
) -> bool {
    &&& request.protocol == protocol
    &&& request.scheme == scheme
    &&& request.method == head.method
    &&& request.path@ == head.path
    &&& request.headers.listing() == head.headers
    &&& request.content_length == head.content_length
    &&& request.peer_addr@ == addr
    &&& request.flow is None
    &&& request.path_values is None
    &&& request.body_reader.spec_length() == head.content_length
    &&& !request.body_reader.spec_consumed()
}

pub struct AlphaHttpParser {}

impl AlphaHttpParser {
    pub fn new() -> Self {
        AlphaHttpParser {}
    }

    /// Where the line that starts at `from` ends.
    pub fn next_line(&self, data: &[u8], from: usize) -> (end: usize)
        requires
            from <= data@.len(),
        ensures
            end == line_end(data@, from as int),
            from <= end <= data@.len(),
            from < data@.len() ==> from < end,
    {
        let feed = find_byte(data, 10u8, from);
        if feed < data.len() {
            feed + 1
        } else {
            data.len()
        }
    }

    /// Whether a line ends the headers: it has at most two bytes.
    pub fn ends_headers(&self, line: &[u8]) -> (b: bool)
        ensures
            b == (line@.len() <= 2),
    {
        line.len() <= 2
    }

    /// Where the head of a request ends, and its body begins, if the lines
    /// of the head start at `from`.
    pub fn find_head_end(&self, data: &[u8], from: usize) -> (end: usize)
        requires
            from <= data@.len(),
        ensures
            end == head_end(data@, from as int),
            from <= end <= data@.len(),
    {
        let mut at: usize = from;
        while at < data.len()
            invariant
                from <= at <= data@.len(),
                head_end(data@, at as int) == head_end(data@, from as int),
            decreases data@.len() - at,
        {
            let end = self.next_line(data, at);
            if end - at <= 2 {
                return end;
            }
            at = end;
        }
        at
    }

    /// Reads a request line.
    pub fn parse_request_line(&self, line: &[u8]) -> (parsed: Result<(HttpMethod, String), HttpParserError>)
        ensures
            match request_line(line@) {
                Ok((method, path)) => parsed matches Ok(p) && p.0 == method && p.1@ == path,
                Err(e) => parsed == Err::<(HttpMethod, String), HttpParserError>(e),
            },
    {
        if line.len() < 5 {
            return Err(HttpParserError::InvalidRequestLine);
        }
        let text = match decode_text(line) {
            Some(text) => text,
            None => {
                return Err(HttpParserError::InvalidRequestLine);
            },
        };
        let s = text.as_slice();
        let method_from = skip_whitespace_at(s, 0);
        let method_to = skip_word_at(s, method_from);
        let path_from = skip_whitespace_at(s, method_to);
        let path_to = skip_word_at(s, path_from);
        if method_from >= s.len() || path_from >= s.len() {
            return Err(HttpParserError::InvalidRequestLine);
        }
        let method_text = string_of(vstd::slice::slice_subrange(s, method_from, method_to));
        let path = string_of(vstd::slice::slice_subrange(s, path_from, path_to));
        match HttpMethod::from_str(method_text.as_str()) {
            Some(method) => Ok((method, path)),
            None => Err(HttpParserError::InvalidMethod),
        }
    }

    /// Reads a header line into the headers.
    pub fn parse_header_line(&self, line: &[u8], headers: &mut HttpHeaderMap) -> (parsed: Result<
        (),
        HttpParserError,
    >)
        ensures
            match header_line(line@, old(headers).listing()) {
                Ok(more) => parsed is Ok && final(headers).listing() == more,
                Err(e) => parsed == Err::<(), HttpParserError>(e) && final(headers).listing() == old(
                    headers,
                ).listing(),
            },
    {
        if line.len() > MAX_HEADER_SIZE {
            return Err(HttpParserError::HeaderLine);
        }
        let colon = find_byte(line, 58u8, 0);
        if colon >= line.len() {
            return Ok(());
        }
        let key = match decode_text(vstd::slice::slice_subrange(line, 0, colon)) {
            Some(key) => key,
            None => {
                return Err(HttpParserError::HeaderLine);
            },
        };
        let value = match decode_text(vstd::slice::slice_subrange(line, colon + 1, line.len())) {
            Some(value) => value,
            None => {
                return Err(HttpParserError::HeaderLine);
            },
        };
        let name = to_lowercase(string_of(trim_text(key.as_slice()).as_slice()).as_str());
        let value = string_of(trim_text(value.as_slice()).as_slice());
        headers.insert(HttpHeader::from_name(name.as_str()), value);
        Ok(())
    }

    /// Reads the header lines that start at `from`.
    pub fn parse_headers(&self, data: &[u8], from: usize) -> (parsed: Result<
        HttpHeaderMap,
        HttpParserError,
    >)
        requires
            from <= data@.len(),
        ensures
            match header_lines(data@, from as int, Seq::empty()) {
                Ok(headers) => parsed matches Ok(h) && h.listing() == headers,
                Err(e) => parsed matches Err(f) && f == e,
            },
    {
        let mut headers = HttpHeaderMap::new();
        let mut at: usize = from;
        while at < data.len()
            invariant
                from <= at <= data@.len(),
                header_lines(data@, at as int, headers.listing()) == header_lines(
                    data@,
                    from as int,
                    Seq::empty(),
                ),
            decreases data@.len() - at,
        {
            let end = self.next_line(data, at);
            let line = vstd::slice::slice_subrange(data, at, end);
            if self.ends_headers(line) {
                return Ok(headers);
            }
            match self.parse_header_line(line, &mut headers) {
                Ok(()) => {},
                Err(e) => {
                    return Err(e);
                },
            }
            at = end;
        }
        Ok(headers)
    }

    /// Reads the head of a request that came from `addr`: its request line
    /// and its headers. The body is left unread; the headers say how long it
    /// is.
    pub fn parse(&self, addr: &str, data: &[u8]) -> (parsed: Result<HttpRequest, HttpParserError>)
        ensures
            match request_head(data@) {
                Ok(head) => parsed matches Ok(request) && is_fresh_request(
                    request,
                    HttpProtocol::HTTP1,
                    HttpScheme::HTTP,
                    head,
                    addr@,
                ),
                Err(e) => parsed matches Err(f) && f == e,
            },
    {
        let first = self.next_line(data, 0);
        let (method, path) = match self.parse_request_line(
            vstd::slice::slice_subrange(data, 0, first),
        ) {
            Ok(line) => line,
            Err(e) => {
                return Err(e);
            },
        };
        let headers = match self.parse_headers(data, first) {
            Ok(headers) => headers,
            Err(e) => {
                return Err(e);
            },
        };
        let content_length = match headers.get(&HttpHeader::ContentLength) {
            Some(text) => match parse_usize(text.as_str()) {
                Some(n) => n,
                None => {
                    return Err(HttpParserError::InvalidContentLength);
                },
            },
            None => {
                return Err(HttpParserError::InvalidContentLength);
            },
        };
        Ok(
            HttpRequest {
                protocol: HttpProtocol::HTTP1,
                scheme: HttpScheme::HTTP,
                path,
                method,
                headers,
                flow: None,
                peer_addr: addr.to_owned(),
                content_length,
                body_reader: LazyBodyReader::new(content_length),
                path_values: None,
            },
        )
    }
}

} // verus!
