//! Parsers: from the bytes of a connection to a request.

pub mod alpha;
pub mod beta;
pub mod body;
pub mod hpack;

use vstd::prelude::*;

verus! {

/// Why the bytes of a connection could not be read as a request. Each of
/// these ends the connection.
#[derive(Debug, Clone, Copy, PartialEq, Eq, Structural)]
pub enum HttpParserError {
    RequestLine,
    ConnectionPreface,
    InvalidFrame,
    InvalidMethod,
    InvalidStream,
    InvalidHeader,
    InvalidContentLength,
    InvalidRequestLine,
    FrameHeader,
    FramePayload,
    HeaderLine,
    UnknownFrameType,
    HeaderDecoding,
    RequiredHeaderNotFound,
}

} // verus!
