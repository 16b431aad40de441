//! The encoder of HTTP/1.1: a status line, a line for each header, an empty
//! line, and the body.

use crate::request::HeaderName;
use crate::response::{HttpResponse, ResponseView};
use crate::text::{append_bytes, decimal, decimal_text};
use vstd::prelude::*;
use vstd::string::StringSliceAdditionalSpecFns;
use vstd::utf8::encode_utf8;

verus! {

/// The line of a header: its name, a colon and a space, its value, and the
/// end of the line.
pub open spec fn header_line(name: Seq<char>, value: Seq<char>) -> Seq<u8> {
    encode_utf8(name) + encode_utf8(": "@) + encode_utf8(value) + encode_utf8("\r\n"@)
}

/// The lines of the first `n` headers, in order.
pub open spec fn header_lines(headers: Seq<(HeaderName, Seq<char>)>, n: int) -> Seq<u8>
    decreases n,
{
    if n <= 0 || n > headers.len() {
        Seq::empty()
    } else {
        header_lines(headers, n - 1) + header_line(headers[n - 1].0.name(), headers[n - 1].1)
    }
}

/// The status line: the protocol, the number of the status, and the end of
/// the line.
pub open spec fn status_line(code: nat) -> Seq<u8> {
    encode_utf8("HTTP/1.1 "@) + encode_utf8(decimal(code)) + encode_utf8("\r\n"@)
}

/// A response as HTTP/1.1 writes it.
pub open spec fn encoded(response: ResponseView) -> Seq<u8> {
    status_line(response.status.spec_code() as nat) + header_lines(
        response.headers,
        response.headers.len() as int,
    ) + encode_utf8("\r\n"@) + response.body
}

pub struct AlphaHttpEncoder {}

impl AlphaHttpEncoder {
    pub fn new() -> Self {
        AlphaHttpEncoder {}
    }

    /// Writes the line of a header.
    pub fn insert_header(&self, key: &str, value: &str, encoded: &mut Vec<u8>)
        ensures
            final(encoded)@ == old(encoded)@ + header_line(key@, value@),
    {
        append_bytes(encoded, key.as_bytes());
        append_bytes(encoded, ": ".as_bytes());
        append_bytes(encoded, value.as_bytes());
        append_bytes(encoded, "\r\n".as_bytes());
        assert(encoded@ == old(encoded)@ + header_line(key@, value@));
    }

    /// Writes a response. The headers come in the order in which they were
    /// set.
    pub fn encode(&self, response: HttpResponse) -> (bytes: Vec<u8>)
        ensures
            bytes@ == encoded(response@),
    {
        let mut bytes: Vec<u8> = Vec::new();
        let code = decimal_text(response.status_code.code() as usize);
        append_bytes(&mut bytes, "HTTP/1.1 ".as_bytes());
        append_bytes(&mut bytes, code.as_str().as_bytes());
        append_bytes(&mut bytes, "\r\n".as_bytes());
        assert(bytes@ == status_line(response.status_code.spec_code() as nat));
        let ghost headers = response.headers.listing();
        let mut i: usize = 0;
        while i < response.headers.len()
            invariant
                i <= headers.len(),
                headers == response.headers.listing(),
                bytes@ == status_line(response.status_code.spec_code() as nat) + header_lines(
                    headers,
                    i as int,
                ),
            decreases headers.len() - i,
        {
            let name = response.headers.key(i).name();
            let value = response.headers.value(i);
            self.insert_header(name.as_str(), value.as_str(), &mut bytes);
            i += 1;
            assert(bytes@ == status_line(response.status_code.spec_code() as nat) + header_lines(
                headers,
                i as int,
            ));
        }
        append_bytes(&mut bytes, "\r\n".as_bytes());
        append_bytes(&mut bytes, response.body.as_slice());
        bytes
    }
}

} // verus!
