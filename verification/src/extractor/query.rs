//! Queries: the pairs that follow the question mark of a path.

use crate::extractor::{ExtractorError, FromRequest, FromText};
use crate::request::HttpRequest;
use vstd::prelude::*;

verus! {

/// A value read from a pair of the query that has to be there.
pub struct Query<T>(pub T);

/// A value read from a pair of the query that may be missing.
pub struct OptionalQuery<T>(pub Option<T>);

impl<T> Query<T> {
    pub fn new(value: T) -> (query: Self)
        ensures
            query.0 == value,
    {
        Query(value)
    }
}

/// A type whose values are taken from a request by a name.
pub trait NamedExtractor: Sized {
    /// The results that taking the value named `name` from a request may
    /// have.
    spec fn extracts_by_name(name: Seq<char>, request: HttpRequest, result: Result<Self, ExtractorError>) -> bool;

    fn from_request_by_name(name: &str, request: &HttpRequest) -> (result: Result<Self, ExtractorError>)
        requires
            request.path_values is Some,
        ensures
            Self::extracts_by_name(name@, *request, result),
    ;
}

impl<T: FromText> NamedExtractor for Query<T> {
    /// The value is read from the pair of the query that has the name.
    /// Without such a pair the parameter is missing.
    open spec fn extracts_by_name(name: Seq<char>, request: HttpRequest, result: Result<Self, ExtractorError>) -> bool {
        let queries = request.path_values->0.queries;
        if !queries@.contains_key(name) {
            result == Err::<Self, ExtractorError>(ExtractorError::MissingQueryParameter)
        } else {
            exists|read: Option<T>| #[trigger]
                T::reads(queries@[name], read) && result == match read {
                    Some(value) => Ok::<Self, ExtractorError>(Query(value)),
                    None => Err(ExtractorError::WrongProvidedFormat),
                }
        }
    }

    fn from_request_by_name(name: &str, request: &HttpRequest) -> (result: Result<Self, ExtractorError>) {
        match &request.path_values {
            None => Err(ExtractorError::MissingQueryParameter),
            Some(values) => {
                let key = name.to_owned();
                match values.queries.get(&key) {
                    Some(text) => {
                        let read = T::from_text(text.as_str());
                        assert(T::reads(values.queries@[name@], read));
                        match read {
                            Some(value) => Ok(Query(value)),
                            None => Err(ExtractorError::WrongProvidedFormat),
                        }
                    },
                    None => Err(ExtractorError::MissingQueryParameter),
                }
            },
        }
    }
}

impl<T: FromText> NamedExtractor for OptionalQuery<T> {
    /// The value is read from the pair of the query that has the name, if
    /// there is one.
    open spec fn extracts_by_name(name: Seq<char>, request: HttpRequest, result: Result<Self, ExtractorError>) -> bool {
        let queries = request.path_values->0.queries;
        if !queries@.contains_key(name) {
            result == Ok::<Self, ExtractorError>(OptionalQuery(None))
        } else {
            exists|read: Option<T>| #[trigger]
                T::reads(queries@[name], read) && result == match read {
                    Some(value) => Ok::<Self, ExtractorError>(OptionalQuery(Some(value))),
                    None => Err(ExtractorError::WrongProvidedFormat),
                }
        }
    }

    fn from_request_by_name(name: &str, request: &HttpRequest) -> (result: Result<Self, ExtractorError>) {
        match &request.path_values {
            None => Ok(OptionalQuery(None)),
            Some(values) => {
                let key = name.to_owned();
                match values.queries.get(&key) {
                    Some(text) => {
                        let read = T::from_text(text.as_str());
                        assert(T::reads(values.queries@[name@], read));
                        match read {
                            Some(value) => Ok(OptionalQuery(Some(value))),
                            None => Err(ExtractorError::WrongProvidedFormat),
                        }
                    },
                    None => Ok(OptionalQuery(None)),
                }
            },
        }
    }
}

impl<T: FromText> FromRequest for Query<T> {
    /// The arguments of a handler are its parameters first and then its
    /// queries: the query at `index` is read from the pair of the query at
    /// that place, counted from the end of the parameters. Without such a
    /// pair the parameter is missing.
    open spec fn extracts(index: usize, request: HttpRequest, result: Result<Self, ExtractorError>) -> bool {
        let values = request.path_values->0;
        let at = index - values.params.spec_len();
        if request.path_values is None || at < 0 || at >= values.queries.spec_len() {
            result == Err::<Self, ExtractorError>(ExtractorError::MissingQueryParameter)
        } else {
            exists|read: Option<T>| #[trigger]
                T::reads(values.queries.listing()[at].1, read) && result == match read {
                    Some(value) => Ok::<Self, ExtractorError>(Query(value)),
                    None => Err(ExtractorError::WrongProvidedFormat),
                }
        }
    }

    fn from_request(index: usize, request: &HttpRequest) -> (result: Result<Self, ExtractorError>) {
        match &request.path_values {
            None => Err(ExtractorError::MissingQueryParameter),
            Some(values) => {
                let skipped = values.params.len();
                if index < skipped || index - skipped >= values.queries.len() {
                    return Err(ExtractorError::MissingQueryParameter);
                }
                let read = T::from_text(values.queries.value(index - skipped).as_str());
                assert(T::reads(values.queries.listing()[index - skipped].1, read));
                match read {
                    Some(value) => Ok(Query(value)),
                    None => Err(ExtractorError::WrongProvidedFormat),
                }
            },
        }
    }
}

} // verus!
