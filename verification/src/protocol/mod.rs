//! Protocols: what a server does with the bytes of one connection.

pub mod alpha;
pub mod beta;

use vstd::prelude::*;

verus! {

/// Why a protocol could not serve.
#[derive(Debug)]
pub struct HttpProtocolError {
    pub message: String,
}

impl HttpProtocolError {
    pub fn new(message: &str) -> (error: Self)
        ensures
            error.message@ == message@,
    {
        HttpProtocolError { message: message.to_owned() }
    }
}

/// Why a server could not be put together.
#[derive(Debug, Clone, Copy, PartialEq, Eq, Structural)]
pub enum ServerBuildError {
    UndefinedAddress,
}

} // verus!
