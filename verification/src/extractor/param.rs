//! Parameters: the segments of a path that a route captured.

use crate::extractor::{ExtractorError, FromRequest, FromText};
use crate::request::HttpRequest;
use vstd::prelude::*;

verus! {

/// A value read from a captured segment of the path.
pub struct Param<T>(pub T);

impl<T> Param<T> {
    pub fn new(value: T) -> (param: Self)
        ensures
            param.0 == value,
    {
        Param(value)
    }
}

impl<T: FromText> FromRequest for Param<T> {
    /// The parameter at `index` is read from the segment that the route
    /// captured at that place. Without such a segment the path is not
    /// registered for it.
    open spec fn extracts(index: usize, request: HttpRequest, result: Result<Self, ExtractorError>) -> bool {
        match request.path_values {
            None => result == Err::<Self, ExtractorError>(ExtractorError::UnregisteredPath),
            Some(values) => if index >= values.params.spec_len() {
                result == Err::<Self, ExtractorError>(ExtractorError::UnregisteredPath)
            } else {
                exists|read: Option<T>| #[trigger]
                    T::reads(values.params.listing()[index as int].1, read) && result == match read {
                        Some(value) => Ok::<Self, ExtractorError>(Param(value)),
                        None => Err(ExtractorError::WrongProvidedFormat),
                    }
            },
        }
    }

    fn from_request(index: usize, request: &HttpRequest) -> (result: Result<Self, ExtractorError>) {
        match &request.path_values {
            None => Err(ExtractorError::UnregisteredPath),
            Some(values) => {
                if index >= values.params.len() {
                    return Err(ExtractorError::UnregisteredPath);
                }
                let read = T::from_text(values.params.value(index).as_str());
                assert(T::reads(values.params.listing()[index as int].1, read));
                match read {
                    Some(value) => Ok(Param(value)),
                    None => Err(ExtractorError::WrongProvidedFormat),
                }
            },
        }
    }
}

} // verus!
