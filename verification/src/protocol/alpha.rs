//! HTTP/1.1 on one connection: from the head of a request to the bytes of
//! the answer.

use crate::encoder::alpha::{encoded, AlphaHttpEncoder};
use crate::encoder::format::{formatted, DefaultHttpResponseFormatter, HttpResponseFormatter};
use crate::middleware::Middleware;
use crate::parser::alpha::{is_fresh_request, request_head, AlphaHttpParser};
use crate::request::{HttpProtocol, HttpRequest, HttpScheme};
use crate::response::into::{plain_text_headers, IntoResponse};
use crate::response::{HttpResponse, HttpStatusCode, ResponseView};
use crate::router::handler::RouteHandler;
use crate::router::tree::{has_well_formed_query, well_formed_query};
use crate::router::Router;
use vstd::prelude::*;

verus! {

/// A response with a status, marked as plain text, without a body.
pub open spec fn bare(status: HttpStatusCode) -> ResponseView {
    ResponseView { status, headers: plain_text_headers(), body: Seq::empty() }
}

/// Whether `response` can be the answer of a router to a request. A path
/// whose query is not well formed is answered with status 500, a request
/// that no route answers with status 404, and every other request by its
/// route.
pub open spec fn answers<H: RouteHandler, M: Middleware>(
    router: Router<H, M>,
    request: HttpRequest,
    response: HttpResponse,
) -> bool {
    if !well_formed_query(request.path@) {
        response@ == bare(HttpStatusCode::InternalServerError)
    } else {
        match router.tree().find(request.path@) {
            Some(route) => if route.handler.accepts(request.method) {
                router.routes(request, route, response)
            } else {
                response@ == bare(HttpStatusCode::NotFound)
            },
            None => response@ == bare(HttpStatusCode::NotFound),
        }
    }
}

/// HTTP/1.1 with a router.
pub struct AlphaHttpProtocol<H, M> {
    pub router: Option<Router<H, M>>,
    pub parser: AlphaHttpParser,
    pub encoder: AlphaHttpEncoder,
    pub formatter: DefaultHttpResponseFormatter,
}

impl<H: RouteHandler, M: Middleware> AlphaHttpProtocol<H, M> {
    /// A protocol that has no router yet.
    pub fn new() -> (protocol: Self)
        ensures
            protocol.router is None,
    {
        AlphaHttpProtocol {
            router: None,
            parser: AlphaHttpParser::new(),
            encoder: AlphaHttpEncoder::new(),
            formatter: DefaultHttpResponseFormatter::new(),
        }
    }

    /// A protocol with a router.
    pub fn link_router(router: Router<H, M>) -> (protocol: Self)
        ensures
            protocol.router == Some(router),
    {
        AlphaHttpProtocol {
            router: Some(router),
            parser: AlphaHttpParser::new(),
            encoder: AlphaHttpEncoder::new(),
            formatter: DefaultHttpResponseFormatter::new(),
        }
    }

    pub fn set_router(&mut self, router: Router<H, M>)
        ensures
            final(self).router == Some(router),
    {
        self.router = Some(router);
    }

    /// The answer to a request.
    pub fn answer(&self, request: HttpRequest) -> (response: HttpResponse)
        requires
            self.router is Some,
            request.flow is None,
            request.path_values is None,
        ensures
            answers(self.router->0, request, response),
    {
        if !has_well_formed_query(request.path.as_str()) {
            return HttpStatusCode::InternalServerError.into_response();
        }
        match &self.router {
            Some(router) => match router.route(request) {
                Some(response) => response,
                None => HttpStatusCode::NotFound.into_response(),
            },
            None => HttpStatusCode::InternalServerError.into_response(),
        }
    }

    /// The bytes that answer a request: the answer, formatted and encoded.
    pub fn respond(&self, request: HttpRequest) -> (bytes: Vec<u8>)
        requires
            self.router is Some,
            request.flow is None,
            request.path_values is None,
        ensures
            exists|response: HttpResponse, date: Seq<char>|
                answers(self.router->0, request, response) && bytes@ == #[trigger] encoded(
                    formatted(response@, date),
                ),
    {
        let response = self.answer(request);
        let ready = self.formatter.format(response);
        let ghost date = choose|date: Seq<char>| ready@ == formatted(response@, date);
        let bytes = self.encoder.encode(ready);
        assert(bytes@ == encoded(formatted(response@, date)));
        bytes
    }

    /// What the head of a request that came from `addr` is answered with.
    /// A head that cannot be read is not answered: the connection is given
    /// up.
    pub fn serve(&self, addr: &str, head: &[u8]) -> (bytes: Option<Vec<u8>>)
        requires
            self.router is Some,
        ensures
            match request_head(head@) {
                Ok(said) => bytes matches Some(b) && exists|
                    request: HttpRequest,
                    response: HttpResponse,
                    date: Seq<char>,
                |
                    is_fresh_request(request, HttpProtocol::HTTP1, HttpScheme::HTTP, said, addr@)
                        && #[trigger] answers(self.router->0, request, response) && b@
                        == #[trigger] encoded(formatted(response@, date)),
                Err(_) => bytes is None,
            },
    {
        match self.parser.parse(addr, head) {
            Ok(request) => {
                let bytes = self.respond(request);
                proof {
                    let (response, date) = choose|response: HttpResponse, date: Seq<char>|
                        answers(self.router->0, request, response) && bytes@ == #[trigger] encoded(
                            formatted(response@, date),
                        );
                    assert(is_fresh_request(
                        request,
                        HttpProtocol::HTTP1,
                        HttpScheme::HTTP,
                        request_head(head@)->Ok_0,
                        addr@,
                    ));
                    assert(answers(self.router->0, request, response) && bytes@ == encoded(
                        formatted(response@, date),
                    ));
                }
                Some(bytes)
            },
            Err(_) => None,
        }
    }
}

} // verus!
