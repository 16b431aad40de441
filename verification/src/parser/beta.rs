//! The parser of HTTP/2: a connection preface, frames up to the first
//! HEADERS frame, and the header block of that frame. Frames of data, of
//! settings and of continuation are passed over.

use crate::list_map::{key_index, listing_insert};
use crate::parser::alpha::{content_length, is_fresh_request, RequestHead};
use crate::parser::body::LazyBodyReader;
use crate::parser::hpack::{is_well_formed_block, well_formed_block};
use crate::parser::HttpParserError;
use crate::request::{
    HeaderName, HttpHeader, HttpHeaderMap, HttpMethod, HttpProtocol, HttpRequest, HttpScheme,
};
use crate::text::{lossy_text, parse_usize, utf8_lossy};
use vstd::prelude::*;

verus! {

pub const CONNECTION_PREFACE_LEN: usize = 24;

pub const FRAME_HEADER_SIZE: usize = 9;

pub const HEADER_FLAG_ONE: u8 = 0x08;

pub const HEADER_FLAG_TWO: u8 = 0x20;

pub const FRAME_TYPE_HEADERS: u8 = 0x01;

pub const FRAME_TYPE_CONTINUATION: u8 = 0x04;

pub const FRAME_TYPE_DATA: u8 = 0x08;

pub const FRAME_TYPE_SETTINGS: u8 = 0x07;

/// `hpack::Decoder`: the decoder of header blocks, with the table that it
/// keeps from one block of a connection to the next.
#[verifier::external_type_specification]
#[verifier::external_body]
pub struct ExDecoder<'a>(hpack::Decoder<'a>);

/// `hpack::decoder::DecoderError`: why a header block could not be decoded.
#[verifier::external_type_specification]
#[verifier::external_body]
pub struct ExDecoderError(hpack::decoder::DecoderError);

/// The headers that the table of a decoder holds, the newest first.
pub uninterp spec fn decoder_table(decoder: hpack::Decoder) -> Seq<(Seq<u8>, Seq<u8>)>;

/// The size that the table of a decoder may grow to.
pub uninterp spec fn decoder_limit(decoder: hpack::Decoder) -> nat;

/// What a decoder whose table holds `table` and may grow to `limit` makes
/// of a block, as `hpack::Decoder::decode` gives it: the names and values of
/// the headers, or nothing where the block cannot be decoded, and what the
/// table holds and may grow to after that.
pub uninterp spec fn block_decoding(table: Seq<(Seq<u8>, Seq<u8>)>, limit: nat, block: Seq<u8>) -> (
    Option<Seq<(Seq<u8>, Seq<u8>)>>,
    Seq<(Seq<u8>, Seq<u8>)>,
    nat,
);

/// `hpack::Decoder::new`: a decoder with an empty table that may grow to
/// 4096 bytes.
#[verifier::external_body]
fn new_decoder<'a>() -> (decoder: hpack::Decoder<'a>)
    ensures
        decoder_table(decoder) == Seq::<(Seq<u8>, Seq<u8>)>::empty(),
        decoder_limit(decoder) == 4096,
{
    hpack::Decoder::new()
}

/// `hpack::Decoder::decode`: the names and values of the headers of a
/// block, or the reason why the block cannot be decoded. What comes out, and
/// what the table holds and may grow to afterwards, depends on the block and
/// on what the table held and might grow to, and on nothing else. The
/// decoder stops on a malformed size update; blocks that are not made of
/// well-formed fields are kept from it.
#[verifier::external_body]
fn decode_block(decoder: &mut hpack::Decoder<'_>, block: &[u8]) -> (decoded: Result<
    Vec<(Vec<u8>, Vec<u8>)>,
    hpack::decoder::DecoderError,
>)
    requires
        well_formed_block(block@),
    ensures
        decoded matches Ok(pairs) ==> block_decoding(
            decoder_table(*old(decoder)),
            decoder_limit(*old(decoder)),
            block@,
        ).0 == Some(pair_bytes(pairs@)),
        decoded is Err ==> block_decoding(
            decoder_table(*old(decoder)),
            decoder_limit(*old(decoder)),
            block@,
        ).0 is None,
        decoder_table(*final(decoder)) == block_decoding(
            decoder_table(*old(decoder)),
            decoder_limit(*old(decoder)),
            block@,
        ).1,
        decoder_limit(*final(decoder)) == block_decoding(
            decoder_table(*old(decoder)),
            decoder_limit(*old(decoder)),
            block@,
        ).2,
{
    decoder.decode(block)
}

/// The preface that opens every connection: `PRI * HTTP/2.0`, an empty
/// line, `SM`, and another empty line.
pub open spec fn connection_preface() -> Seq<u8> {
    seq![
        80u8, 82u8, 73u8, 32u8, 42u8, 32u8, 72u8, 84u8, 84u8, 80u8, 47u8, 50u8, 46u8, 48u8, 13u8,
        10u8, 13u8, 10u8, 83u8, 77u8, 13u8, 10u8, 13u8, 10u8,
    ]
}

/// Whether bytes start with the connection preface.
pub open spec fn has_preface(data: Seq<u8>) -> bool {
    data.len() >= 24 && data.subrange(0, 24) == connection_preface()
}

/// The length that the frame header at `at` gives for its payload: three
/// bytes, the first of them the highest.
pub open spec fn frame_length(data: Seq<u8>, at: int) -> nat {
    (data[at] as nat) * 65536 + (data[at + 1] as nat) * 256 + data[at + 2] as nat
}

/// A HEADERS frame: its flags, and where its payload begins and ends.
pub struct HeadersFrame {
    pub flags: u8,
    pub from: int,
    pub to: int,
}

/// The first HEADERS frame at or after `at`. Frames of data, of settings
/// and of continuation before it are passed over; a frame of another type,
/// a frame header that is cut short and a payload that is cut short are
/// errors.
pub open spec fn headers_frame(data: Seq<u8>, at: int) -> Result<HeadersFrame, HttpParserError>
    decreases data.len() - at,
{
    if at < 0 || data.len() - at < 9 {
        Err(HttpParserError::FrameHeader)
    } else {
        let length = frame_length(data, at);
        let kind = data[at + 3];
        if data.len() - (at + 9) < length {
            Err(HttpParserError::FramePayload)
        } else if kind == FRAME_TYPE_HEADERS {
            Ok(HeadersFrame { flags: data[at + 4], from: at + 9, to: at + 9 + length })
        } else if kind == FRAME_TYPE_CONTINUATION || kind == FRAME_TYPE_DATA || kind
            == FRAME_TYPE_SETTINGS {
            headers_frame(data, at + 9 + length)
        } else {
            Err(HttpParserError::UnknownFrameType)
        }
    }
}

/// How many bytes stand before the header block in the payload of a
/// HEADERS frame: one if the first flag is set and four if the second is.
pub open spec fn block_offset(flags: u8) -> int {
    (if flags & HEADER_FLAG_ONE != 0 {
        1int
    } else {
        0int
    }) + (if flags & HEADER_FLAG_TWO != 0 {
        4int
    } else {
        0int
    })
}

/// The names and values that a decoder gave, as sequences of bytes.
pub open spec fn pair_bytes(pairs: Seq<(Vec<u8>, Vec<u8>)>) -> Seq<(Seq<u8>, Seq<u8>)> {
    Seq::new(pairs.len(), |i: int| (pairs[i].0@, pairs[i].1@))
}

/// The headers that the first `n` decoded pairs stand for. A name that
/// comes again keeps its place and takes the later value.
pub open spec fn headers_of_pairs(pairs: Seq<(Seq<u8>, Seq<u8>)>, n: int) -> Seq<(HeaderName, Seq<char>)>
    decreases n,
{
    if n <= 0 || n > pairs.len() {
        Seq::empty()
    } else {
        listing_insert(
            headers_of_pairs(pairs, n - 1),
            HeaderName::from_name(lossy_text(pairs[n - 1].0)),
            lossy_text(pairs[n - 1].1),
        )
    }
}

/// The value of a header, if it is set.
pub open spec fn header_value(headers: Seq<(HeaderName, Seq<char>)>, name: HeaderName) -> Option<Seq<char>> {
    let at = key_index(headers, name, 0);
    if at < headers.len() {
        Some(headers[at].1)
    } else {
        None
    }
}

/// What the headers of a HEADERS frame say of the request. The method and
/// the path have to be there; the scheme is HTTP unless it is given; the
/// body is as long as the content length says, and empty without one.
pub open spec fn head_of_headers(headers: Seq<(HeaderName, Seq<char>)>) -> Result<
    (HttpScheme, RequestHead),
    HttpParserError,
> {
    match header_value(headers, HeaderName::PseudoMethod) {
        None => Err(HttpParserError::RequiredHeaderNotFound),
        Some(method_text) => match header_value(headers, HeaderName::PseudoPath) {
            None => Err(HttpParserError::RequiredHeaderNotFound),
            Some(path) => match HttpMethod::spec_from_str(method_text) {
                None => Err(HttpParserError::InvalidMethod),
                Some(method) => Ok(
                    (
                        match header_value(headers, HeaderName::PseudoScheme) {
                            Some(scheme) => HttpScheme::spec_from_str(scheme),
                            None => HttpScheme::HTTP,
                        },
                        RequestHead {
                            method,
                            path,
                            headers,
                            content_length: match content_length(headers) {
                                Some(n) => n,
                                None => 0,
                            },
                        },
                    ),
                ),
            },
        },
    }
}

/// What a decoder holds: the headers of its table, and the size that the
/// table may grow to.
pub struct DecoderState {
    pub table: Seq<(Seq<u8>, Seq<u8>)>,
    pub limit: nat,
}

/// The headers that the payload of a HEADERS frame gives to a decoder in a
/// given state, and the state of the decoder after that. The header block
/// follows the fields that the flags announce. A payload that is shorter
/// than those fields is no frame; a block that is not made of well-formed
/// fields, or that the decoder refuses, cannot be decoded.
pub open spec fn headers_of_frame(state: DecoderState, payload: Seq<u8>, flags: u8) -> (
    Result<Seq<(HeaderName, Seq<char>)>, HttpParserError>,
    DecoderState,
) {
    if block_offset(flags) > payload.len() {
        (Err(HttpParserError::InvalidFrame), state)
    } else {
        let block = payload.subrange(block_offset(flags), payload.len() as int);
        if !well_formed_block(block) {
            (Err(HttpParserError::HeaderDecoding), state)
        } else {
            let out = block_decoding(state.table, state.limit, block);
            (
                match out.0 {
                    Some(pairs) => Ok(headers_of_pairs(pairs, pairs.len() as int)),
                    None => Err(HttpParserError::HeaderDecoding),
                },
                DecoderState { table: out.1, limit: out.2 },
            )
        }
    }
}

/// What the bytes of a connection say of the request, to a decoder in a
/// given state, and the state of the decoder after that. Bytes that do not
/// start with the connection preface are refused before any frame is looked
/// at.
pub open spec fn head_of_connection(state: DecoderState, data: Seq<u8>) -> (
    Result<(HttpScheme, RequestHead), HttpParserError>,
    DecoderState,
) {
    if !has_preface(data) {
        (Err(HttpParserError::ConnectionPreface), state)
    } else {
        match headers_frame(data, 24) {
            Err(e) => (Err(e), state),
            Ok(frame) => {
                let read = headers_of_frame(state, data.subrange(frame.from, frame.to), frame.flags);
                (
                    match read.0 {
                        Ok(headers) => head_of_headers(headers),
                        Err(e) => Err(e),
                    },
                    read.1,
                )
            },
        }
    }
}

/// Whether bytes start with the connection preface.
pub fn starts_with_preface(data: &[u8]) -> (b: bool)
    ensures
        b == has_preface(data@),
{
    if data.len() < 24 {
        return false;
    }
    let preface: [u8; 24] = [
        80, 82, 73, 32, 42, 32, 72, 84, 84, 80, 47, 50, 46, 48, 13, 10, 13, 10, 83, 77, 13, 10, 13,
        10,
    ];
    assert(preface@ == connection_preface());
    let mut i: usize = 0;
    while i < 24
        invariant
            i <= 24,
            data@.len() >= 24,
            preface@ == connection_preface(),
            forall|j: int| 0 <= j < i ==> data@[j] == connection_preface()[j],
        decreases 24 - i,
    {
        if data[i] != preface[i] {
            assert(data@.subrange(0, 24)[i as int] != connection_preface()[i as int]);
            return false;
        }
        i += 1;
    }
    assert(data@.subrange(0, 24) == connection_preface());
    true
}

/// Finds the first HEADERS frame at or after `from`.
pub fn find_headers_frame(data: &[u8], from: usize) -> (found: Result<(u8, usize, usize), HttpParserError>)
    requires
        from <= data@.len(),
    ensures
        match headers_frame(data@, from as int) {
            Ok(frame) => found == Ok::<(u8, usize, usize), HttpParserError>(
                (frame.flags, frame.from as usize, frame.to as usize),
            ) && 0 <= frame.from <= frame.to <= data@.len(),
            Err(e) => found == Err::<(u8, usize, usize), HttpParserError>(e),
        },
{
    let total = data.len();
    let mut at: usize = from;
    loop
        invariant
            at <= data@.len(),
            total == data@.len(),
            headers_frame(data@, at as int) == headers_frame(data@, from as int),
        decreases data@.len() - at,
    {
        if total - at < 9 {
            return Err(HttpParserError::FrameHeader);
        }
        let length: usize = (data[at] as usize) * 65536 + (data[at + 1] as usize) * 256
            + data[at + 2] as usize;
        assert(length == frame_length(data@, at as int));
        let kind = data[at + 3];
        if total - (at + 9) < length {
            return Err(HttpParserError::FramePayload);
        }
        if kind == FRAME_TYPE_HEADERS {
            return Ok((data[at + 4], at + 9, at + 9 + length));
        } else if kind == FRAME_TYPE_CONTINUATION || kind == FRAME_TYPE_DATA || kind
            == FRAME_TYPE_SETTINGS {
            at = at + 9 + length;
        } else {
            return Err(HttpParserError::UnknownFrameType);
        }
    }
}

/// The headers that decoded pairs stand for.
pub fn headers_from_pairs(pairs: &Vec<(Vec<u8>, Vec<u8>)>) -> (headers: HttpHeaderMap)
    ensures
        headers.listing() == headers_of_pairs(pair_bytes(pairs@), pairs@.len() as int),
{
    let ghost all = pair_bytes(pairs@);
    let mut headers = HttpHeaderMap::new();
    let mut i: usize = 0;
    while i < pairs.len()
        invariant
            i <= pairs@.len(),
            all == pair_bytes(pairs@),
            all.len() == pairs@.len(),
            headers.listing() == headers_of_pairs(all, i as int),
        decreases pairs@.len() - i,
    {
        let name = utf8_lossy(pairs[i].0.as_slice());
        let value = utf8_lossy(pairs[i].1.as_slice());
        assert(all[i as int] == (pairs@[i as int].0@, pairs@[i as int].1@));
        headers.insert(HttpHeader::from_name(name.as_str()), value);
        i += 1;
    }
    headers
}

/// The request that the headers of a HEADERS frame make, for a connection
/// from `addr`.
pub fn request_from_headers(addr: &str, headers: HttpHeaderMap) -> (made: Result<HttpRequest, HttpParserError>)
    ensures
        match head_of_headers(headers.listing()) {
            Ok((scheme, head)) => made matches Ok(request) && is_fresh_request(
                request,
                HttpProtocol::HTTP2,
                scheme,
                head,
                addr@,
            ),
            Err(e) => made matches Err(f) && f == e,
        },
{
    proof {
        crate::list_map::lemma_key_index(headers.listing(), HeaderName::PseudoMethod, 0);
        crate::list_map::lemma_key_index(headers.listing(), HeaderName::PseudoPath, 0);
        crate::list_map::lemma_key_index(headers.listing(), HeaderName::PseudoScheme, 0);
        crate::list_map::lemma_key_index(headers.listing(), HeaderName::ContentLength, 0);
    }
    let method_text = match headers.get(&HttpHeader::PseudoMethod) {
        Some(text) => text,
        None => {
            return Err(HttpParserError::RequiredHeaderNotFound);
        },
    };
    let path = match headers.get(&HttpHeader::PseudoPath) {
        Some(path) => path.clone(),
        None => {
            return Err(HttpParserError::RequiredHeaderNotFound);
        },
    };
    let method = match HttpMethod::from_str(method_text.as_str()) {
        Some(method) => method,
        None => {
            return Err(HttpParserError::InvalidMethod);
        },
    };
    let scheme = match headers.get(&HttpHeader::PseudoScheme) {
        Some(scheme) => HttpScheme::from_str(scheme.as_str()),
        None => HttpScheme::HTTP,
    };
    let content_length: usize = match headers.get(&HttpHeader::ContentLength) {
        Some(text) => match parse_usize(text.as_str()) {
            Some(n) => n,
            None => 0,
        },
        None => 0,
    };
    Ok(
        HttpRequest {
            protocol: HttpProtocol::HTTP2,
            scheme,
            path,
            method,
            headers,
            flow: None,
            peer_addr: addr.to_owned(),
            content_length,
            body_reader: LazyBodyReader::new(content_length),
            path_values: None,
        },
    )
}

/// The parser of one connection. Its decoder keeps its table from one
/// header block of the connection to the next.
pub struct BetaHttpParser<'a> {
    decoder: hpack::Decoder<'a>,
}

impl<'a> BetaHttpParser<'a> {
    /// What the decoder of the parser holds.
    pub closed spec fn state(&self) -> DecoderState {
        DecoderState { table: decoder_table(self.decoder), limit: decoder_limit(self.decoder) }
    }

    /// A parser for a new connection: the table of its decoder is empty and
    /// may grow to 4096 bytes.
    pub fn new() -> (parser: Self)
        ensures
            parser.state() == (DecoderState { table: Seq::empty(), limit: 4096 }),
    {
        BetaHttpParser { decoder: new_decoder() }
    }

    /// Reads the headers of a HEADERS frame from its payload. The decoder
    /// takes up what the block adds to its table.
    pub fn parse_headers_frame(&mut self, payload: &[u8], flags: u8) -> (parsed: Result<
        HttpHeaderMap,
        HttpParserError,
    >)
        ensures
            match headers_of_frame(old(self).state(), payload@, flags).0 {
                Ok(headers) => parsed matches Ok(h) && h.listing() == headers,
                Err(e) => parsed matches Err(f) && f == e,
            },
            final(self).state() == headers_of_frame(old(self).state(), payload@, flags).1,
    {
        let mut cursor: usize = 0;
        if flags & HEADER_FLAG_ONE != 0 {
            cursor += 1;
        }
        if flags & HEADER_FLAG_TWO != 0 {
            cursor += 4;
        }
        if cursor > payload.len() {
            return Err(HttpParserError::InvalidFrame);
        }
        let block = vstd::slice::slice_subrange(payload, cursor, payload.len());
        if !is_well_formed_block(block) {
            return Err(HttpParserError::HeaderDecoding);
        }
        match decode_block(&mut self.decoder, block) {
            Ok(pairs) => {
                assert(pair_bytes(pairs@).len() == pairs@.len());
                Ok(headers_from_pairs(&pairs))
            },
            Err(_) => Err(HttpParserError::HeaderDecoding),
        }
    }

    /// Reads a request from the bytes of a connection from `addr`. Bytes
    /// that do not start with the connection preface are refused before any
    /// frame is looked at.
    pub fn parse(&mut self, addr: &str, data: &[u8]) -> (parsed: Result<HttpRequest, HttpParserError>)
        ensures
            match head_of_connection(old(self).state(), data@).0 {
                Ok((scheme, head)) => parsed matches Ok(request) && is_fresh_request(
                    request,
                    HttpProtocol::HTTP2,
                    scheme,
                    head,
                    addr@,
                ),
                Err(e) => parsed matches Err(f) && f == e,
            },
            final(self).state() == head_of_connection(old(self).state(), data@).1,
    {
        if !starts_with_preface(data) {
            return Err(HttpParserError::ConnectionPreface);
        }
        let total = data.len();
        let (flags, from, to) = match find_headers_frame(data, CONNECTION_PREFACE_LEN) {
            Ok(frame) => frame,
            Err(e) => {
                return Err(e);
            },
        };
        let headers = match self.parse_headers_frame(
            vstd::slice::slice_subrange(data, from, to),
            flags,
        ) {
            Ok(headers) => headers,
            Err(e) => {
                return Err(e);
            },
        };
        request_from_headers(addr, headers)
    }
}

} // verus!
