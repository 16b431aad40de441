//! What answers a request once a route is found.

use crate::request::{HttpMethod, HttpRequest};
use crate::response::HttpResponse;
use vstd::prelude::*;

verus! {

/// A handler of requests. The router calls it for the requests whose path
/// leads to it and whose method it accepts.
pub trait RouteHandler {
    /// The methods that the handler answers.
    spec fn accepts(&self, method: HttpMethod) -> bool;

    fn handles_method(&self, method: HttpMethod) -> (b: bool)
        ensures
            b == self.accepts(method),
    ;

    /// The responses that the handler may give to a request.
    spec fn answers(&self, request: HttpRequest, response: HttpResponse) -> bool;

    /// Answers a request that the router has bound its flow and its path
    /// values to.
    fn handle(&self, request: HttpRequest) -> (response: HttpResponse)
        requires
            request.flow is Some,
            request.path_values is Some,
        ensures
            self.answers(request, response),
    ;
}

} // verus!
