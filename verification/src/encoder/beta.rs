//! The encoder of HTTP/2: a HEADERS frame with the compressed headers and,
//! for a response with a body, a DATA frame with the body.

use crate::request::HeaderName;
use crate::response::HttpResponse;
use crate::text::append_bytes;
use vstd::prelude::*;
use vstd::string::StringSliceAdditionalSpecFns;
use vstd::utf8::encode_utf8;

verus! {

pub const END_HEADERS: u8 = 0x4;

pub const END_STREAM: u8 = 0x1;

pub const FRAME_HEADERS: u8 = 0x1;

pub const FRAME_DATA: u8 = 0x0;

/// `hpack::Encoder`: the encoder of header blocks, with the table that it
/// keeps from one block of a connection to the next.
#[verifier::external_type_specification]
#[verifier::external_body]
pub struct ExEncoder<'a>(hpack::Encoder<'a>);

/// The headers that the table of an encoder holds, the newest first.
pub uninterp spec fn encoder_table(encoder: hpack::Encoder) -> Seq<(Seq<u8>, Seq<u8>)>;

/// What an encoder whose table holds `table` writes for a header, and the
/// headers that its table holds after that, as
/// `hpack::Encoder::encode_header_into` gives them.
pub uninterp spec fn header_encoding(table: Seq<(Seq<u8>, Seq<u8>)>, name: Seq<u8>, value: Seq<u8>) -> (
    Seq<u8>,
    Seq<(Seq<u8>, Seq<u8>)>,
);

/// `hpack::Encoder::new`: an encoder with an empty table.
#[verifier::external_body]
fn new_encoder<'a>() -> (encoder: hpack::Encoder<'a>)
    ensures
        encoder_table(encoder) == Seq::<(Seq<u8>, Seq<u8>)>::empty(),
{
    hpack::Encoder::new()
}

/// `hpack::Encoder::encode_header_into`: writes the encoding of one header
/// behind what `out` holds. What is written, and what the table holds
/// afterwards, depends on the header and on what the table held, and on
/// nothing else.
#[verifier::external_body]
fn encode_header(encoder: &mut hpack::Encoder<'_>, name: &[u8], value: &[u8], out: &mut Vec<u8>)
    ensures
        final(out)@ == old(out)@ + header_encoding(encoder_table(*old(encoder)), name@, value@).0,
        encoder_table(*final(encoder)) == header_encoding(
            encoder_table(*old(encoder)),
            name@,
            value@,
        ).1,
{
    let _ = encoder.encode_header_into((name, value), out);
}

/// The header block of the first `n` headers, written one after the other
/// by an encoder whose table holds `table`, and what the table holds after
/// that. A header is written with its name as on the wire.
pub open spec fn header_block(
    table: Seq<(Seq<u8>, Seq<u8>)>,
    headers: Seq<(HeaderName, Seq<char>)>,
    n: int,
) -> (Seq<u8>, Seq<(Seq<u8>, Seq<u8>)>)
    decreases n,
{
    if n <= 0 || n > headers.len() {
        (Seq::empty(), table)
    } else {
        let before = header_block(table, headers, n - 1);
        let one = header_encoding(
            before.1,
            encode_utf8(headers[n - 1].0.name()),
            encode_utf8(headers[n - 1].1),
        );
        (before.0 + one.0, one.1)
    }
}

/// A frame: the length of the payload in three bytes, the type, the flags,
/// the stream in four bytes without the reserved highest bit, and the
/// payload. The higher bytes of a number come first; of the length only
/// what fits into three bytes is written.
pub open spec fn frame(kind: u8, flags: u8, stream: u32, payload: Seq<u8>) -> Seq<u8> {
    seq![
        (payload.len() / 65536 % 256) as u8,
        (payload.len() / 256 % 256) as u8,
        (payload.len() % 256) as u8,
        kind,
        flags,
        (stream / 16777216 % 128) as u8,
        (stream / 65536 % 256) as u8,
        (stream / 256 % 256) as u8,
        (stream % 256) as u8,
    ] + payload
}

/// The frames of a response on stream 1: a HEADERS frame that ends the
/// headers, and a DATA frame that ends the stream unless the body is empty.
pub open spec fn response_frames(block: Seq<u8>, body: Seq<u8>) -> Seq<u8> {
    if body.len() == 0 {
        frame(FRAME_HEADERS, END_HEADERS, 1, block)
    } else {
        frame(FRAME_HEADERS, END_HEADERS, 1, block) + frame(FRAME_DATA, END_STREAM, 1, body)
    }
}

/// The encoder of one connection. Its encoder of header blocks keeps its
/// table from one response of the connection to the next.
pub struct BetaHttpEncoder<'a> {
    hpack_encoder: hpack::Encoder<'a>,
}

impl<'a> BetaHttpEncoder<'a> {
    /// The headers that the table of the encoder holds, the newest first.
    pub closed spec fn table(&self) -> Seq<(Seq<u8>, Seq<u8>)> {
        encoder_table(self.hpack_encoder)
    }

    /// An encoder for a new connection: its table is empty.
    pub fn new() -> (encoder: Self)
        ensures
            encoder.table() == Seq::<(Seq<u8>, Seq<u8>)>::empty(),
    {
        BetaHttpEncoder { hpack_encoder: new_encoder() }
    }

    /// Compresses the headers of a response, in the order in which they
    /// were set. The table of the encoder takes up what the block adds to
    /// it.
    pub fn encode_headers(&mut self, response: &HttpResponse) -> (block: Vec<u8>)
        ensures
            block@ == header_block(
                old(self).table(),
                response.headers.listing(),
                response.headers.listing().len() as int,
            ).0,
            final(self).table() == header_block(
                old(self).table(),
                response.headers.listing(),
                response.headers.listing().len() as int,
            ).1,
    {
        let ghost table = self.table();
        let ghost headers = response.headers.listing();
        let mut block: Vec<u8> = Vec::new();
        let mut i: usize = 0;
        while i < response.headers.len()
            invariant
                i <= headers.len(),
                headers == response.headers.listing(),
                block@ == header_block(table, headers, i as int).0,
                self.table() == header_block(table, headers, i as int).1,
            decreases headers.len() - i,
        {
            let name = response.headers.key(i).name();
            let value = response.headers.value(i);
            encode_header(
                &mut self.hpack_encoder,
                name.as_str().as_bytes(),
                value.as_str().as_bytes(),
                &mut block,
            );
            i += 1;
        }
        block
    }

    /// Puts a payload into a frame.
    pub fn create_frame(&self, frame_type: u8, flags: u8, stream_id: u32, payload: &[u8]) -> (bytes: Vec<u8>)
        ensures
            bytes@ == frame(frame_type, flags, stream_id, payload@),
    {
        let length = payload.len();
        let mut bytes: Vec<u8> = Vec::new();
        bytes.push((length / 65536 % 256) as u8);
        bytes.push((length / 256 % 256) as u8);
        bytes.push((length % 256) as u8);
        bytes.push(frame_type);
        bytes.push(flags);
        bytes.push((stream_id / 16777216 % 128) as u8);
        bytes.push((stream_id / 65536 % 256) as u8);
        bytes.push((stream_id / 256 % 256) as u8);
        bytes.push((stream_id % 256) as u8);
        append_bytes(&mut bytes, payload);
        assert(bytes@ == frame(frame_type, flags, stream_id, payload@));
        bytes
    }

    /// The frames of a response with a given header block and body.
    pub fn frames(&self, block: &[u8], body: &[u8]) -> (bytes: Vec<u8>)
        ensures
            bytes@ == response_frames(block@, body@),
    {
        let mut bytes = self.create_frame(FRAME_HEADERS, END_HEADERS, 1, block);
        if body.len() > 0 {
            let data = self.create_frame(FRAME_DATA, END_STREAM, 1, body);
            append_bytes(&mut bytes, data.as_slice());
        }
        bytes
    }

    /// Writes a response: its headers compressed in a HEADERS frame, and
    /// its body, if it has one, in a DATA frame. The table of the encoder
    /// takes up what the headers add to it.
    pub fn encode(&mut self, response: HttpResponse) -> (bytes: Vec<u8>)
        ensures
            bytes@ == response_frames(
                header_block(
                    old(self).table(),
                    response@.headers,
                    response@.headers.len() as int,
                ).0,
                response@.body,
            ),
            final(self).table() == header_block(
                old(self).table(),
                response@.headers,
                response@.headers.len() as int,
            ).1,
    {
        let block = self.encode_headers(&response);
        self.frames(block.as_slice(), response.body.as_slice())
    }
}

/// The three bytes of length that the encoder writes are read back by the
/// parser as the length of the payload, for every payload that a frame can
/// hold.
pub proof fn lemma_frame_length_round_trip(kind: u8, flags: u8, stream: u32, payload: Seq<u8>)
    requires
        payload.len() < 16777216,
    ensures
        crate::parser::beta::frame_length(frame(kind, flags, stream, payload), 0) == payload.len(),
        frame(kind, flags, stream, payload).len() == 9 + payload.len(),
        frame(kind, flags, stream, payload)[3] == kind,
        frame(kind, flags, stream, payload)[4] == flags,
        frame(kind, flags, stream, payload).subrange(9, 9 + payload.len() as int) == payload,
{
    let n = payload.len();
    assert((n / 65536 % 256) * 65536 + (n / 256 % 256) * 256 + n % 256 == n) by (nonlinear_arith)
        requires
            n < 16777216,
    ;
}

} // verus!
