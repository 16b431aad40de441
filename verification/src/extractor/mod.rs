//! Extractors: how a handler's arguments are taken from a request.

pub mod param;
pub mod query;
pub mod state;

use crate::request::HttpRequest;
use crate::text::{parse_decimal, parse_usize};
use vstd::prelude::*;

verus! {

/// Why an argument could not be taken from a request.
#[derive(Debug, Clone, Copy, PartialEq, Eq, Structural)]
pub enum ExtractorError {
    UnregisteredPath,
    MissingQueryParameter,
    WrongProvidedFormat,
    UnregisteredExtension,
    BodyParseError,
    UnexpectedContentType,
}

/// A type whose values can be taken from a request, as the argument of a
/// handler at a given position.
pub trait FromRequest: Sized {
    /// The results that taking the argument at `index` from a request may
    /// have.
    spec fn extracts(index: usize, request: HttpRequest, result: Result<Self, ExtractorError>) -> bool;

    /// Takes the argument at `index` from a request that the router has
    /// bound its flow and its path values to.
    fn from_request(index: usize, request: &HttpRequest) -> (result: Result<Self, ExtractorError>)
        requires
            request.flow is Some,
            request.path_values is Some,
        ensures
            Self::extracts(index, *request, result),
    ;
}

/// A type whose values can be read from a text.
pub trait FromText: Sized {
    /// The results that reading a text may have.
    spec fn reads(text: Seq<char>, value: Option<Self>) -> bool;

    fn from_text(text: &str) -> (value: Option<Self>)
        ensures
            Self::reads(text@, value),
    ;
}

impl FromText for String {
    open spec fn reads(text: Seq<char>, value: Option<Self>) -> bool {
        value matches Some(s) && s@ == text
    }

    fn from_text(text: &str) -> (value: Option<Self>) {
        Some(text.to_owned())
    }
}

impl FromText for usize {
    open spec fn reads(text: Seq<char>, value: Option<Self>) -> bool {
        value == match parse_decimal(text) {
            Some(n) => if n <= usize::MAX {
                Some(n as usize)
            } else {
                None
            },
            None => None,
        }
    }

    fn from_text(text: &str) -> (value: Option<Self>) {
        parse_usize(text)
    }
}

impl FromText for u32 {
    open spec fn reads(text: Seq<char>, value: Option<Self>) -> bool {
        value == match parse_decimal(text) {
            Some(n) => if n <= u32::MAX {
                Some(n as u32)
            } else {
                None
            },
            None => None,
        }
    }

    fn from_text(text: &str) -> (value: Option<Self>) {
        match parse_usize(text) {
            Some(n) => if n <= 0xffff_ffff {
                Some(n as u32)
            } else {
                None
            },
            None => None,
        }
    }
}

} // verus!
