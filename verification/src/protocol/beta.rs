//! HTTP/2 on one connection: from the bytes of a request to the frames of
//! the answer. Every request that can be read gets the same greeting.

use crate::encoder::beta::{header_block, response_frames, BetaHttpEncoder};
use crate::encoder::format::{formatted, DefaultHttpResponseFormatter, HttpResponseFormatter};
use crate::parser::beta::{head_of_connection, BetaHttpParser, DecoderState};
use crate::response::into::{plain_text_headers, IntoResponse};
use crate::response::{HttpStatusCode, ResponseView};
use vstd::prelude::*;

verus! {

/// The greeting: status 418, plain text, `Hello, world!`.
pub open spec fn greeting() -> ResponseView {
    ResponseView {
        status: HttpStatusCode::ImATeapot,
        headers: plain_text_headers(),
        body: vstd::utf8::encode_utf8("Hello, world!"@),
    }
}

/// The frames of the greeting, formatted with a date and written by an
/// encoder whose table holds `table`, and what the table holds after that.
pub open spec fn greeting_frames(table: Seq<(Seq<u8>, Seq<u8>)>, date: Seq<char>) -> (
    Seq<u8>,
    Seq<(Seq<u8>, Seq<u8>)>,
) {
    let ready = formatted(greeting(), date);
    let block = header_block(table, ready.headers, ready.headers.len() as int);
    (response_frames(block.0, ready.body), block.1)
}

/// HTTP/2 on one connection.
pub struct BetaHttpProtocol<'a> {
    pub parser: BetaHttpParser<'a>,
    pub encoder: BetaHttpEncoder<'a>,
    pub formatter: DefaultHttpResponseFormatter,
}

impl<'a> BetaHttpProtocol<'a> {
    /// The protocol for a new connection: the tables of its parser and of
    /// its encoder are empty.
    pub fn new() -> (protocol: Self)
        ensures
            protocol.parser.state() == (DecoderState { table: Seq::empty(), limit: 4096 }),
            protocol.encoder.table() == Seq::<(Seq<u8>, Seq<u8>)>::empty(),
    {
        BetaHttpProtocol {
            parser: BetaHttpParser::new(),
            encoder: BetaHttpEncoder::new(),
            formatter: DefaultHttpResponseFormatter::new(),
        }
    }

    /// The frames of the greeting, formatted with the present moment as its
    /// date. The parser is left as it is.
    pub fn greet(&mut self) -> (bytes: Vec<u8>)
        ensures
            exists|date: Seq<char>|
                bytes@ == (#[trigger] greeting_frames(old(self).encoder.table(), date)).0
                    && final(self).encoder.table() == greeting_frames(
                    old(self).encoder.table(),
                    date,
                ).1,
            final(self).parser.state() == old(self).parser.state(),
    {
        let response = (HttpStatusCode::ImATeapot, "Hello, world!").into_response();
        let ready = self.formatter.format(response);
        let ghost date = choose|date: Seq<char>| ready@ == formatted(greeting(), date);
        let bytes = self.encoder.encode(ready);
        assert(bytes@ == greeting_frames(old(self).encoder.table(), date).0);
        bytes
    }

    /// What the bytes of a request that came from `addr` are answered
    /// with: the greeting, where the bytes can be read as a request. Bytes
    /// that cannot be read as a request are not answered: the connection is
    /// given up, and nothing is written.
    pub fn serve(&mut self, addr: &str, data: &[u8]) -> (bytes: Option<Vec<u8>>)
        ensures
            final(self).parser.state() == head_of_connection(old(self).parser.state(), data@).1,
            match head_of_connection(old(self).parser.state(), data@).0 {
                Ok(_) => bytes matches Some(b) && exists|date: Seq<char>|
                    b@ == (#[trigger] greeting_frames(old(self).encoder.table(), date)).0
                        && final(self).encoder.table() == greeting_frames(
                        old(self).encoder.table(),
                        date,
                    ).1,
                Err(_) => bytes is None && final(self).encoder.table() == old(self).encoder.table(),
            },
    {
        match self.parser.parse(addr, data) {
            Ok(_) => Some(self.greet()),
            Err(_) => None,
        }
    }
}

} // verus!
