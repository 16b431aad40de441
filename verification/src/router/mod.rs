//! Routing: the route tree, handlers, and the flow of a request.

pub mod flow;
pub mod func;
pub mod handler;
pub mod laws;
pub mod tree;

use crate::extractor::state::{ResourceMap, SharedResource};
use crate::middleware::{ran_after, ran_before, run_order, Middleware, MiddlewareChain, Phase};
use crate::request::HttpRequest;
use crate::response::HttpResponse;
use crate::router::flow::{share_flow, RequestFlow};
use crate::router::handler::RouteHandler;
use crate::router::tree::{well_formed_query, FoundRoute, RouteNode, RouteTree};
use crate::text::segments;
use core::any::TypeId;
use std::sync::Arc;
use vstd::prelude::*;

verus! {

/// Whether two requests say the same, whatever the router has bound to
/// them.
pub open spec fn same_message(a: HttpRequest, b: HttpRequest) -> bool {
    &&& a.protocol == b.protocol
    &&& a.scheme == b.scheme
    &&& a.path == b.path
    &&& a.method == b.method
    &&& a.headers == b.headers
    &&& a.peer_addr == b.peer_addr
    &&& a.content_length == b.content_length
    &&& a.body_reader == b.body_reader
}

/// The routes, the resources and the middlewares of a server. A router is
/// put together once, before the server starts, and only read after that.
pub struct Router<H, M> {
    root: RouteNode<H>,
    resources: ResourceMap,
    middlewares: MiddlewareChain<M>,
}

impl<H: RouteHandler, M: Middleware> Router<H, M> {
    /// The route tree.
    pub closed spec fn tree(&self) -> RouteTree<H> {
        self.root@
    }

    /// The resources, in the order in which they were registered.
    pub closed spec fn resources(&self) -> Seq<(TypeId, SharedResource)> {
        self.resources.listing()
    }

    /// The middlewares, in the order in which they were added.
    pub closed spec fn middlewares(&self) -> Seq<M> {
        self.middlewares@
    }

    /// Whether a resource is registered for the type of a token.
    pub open spec fn has(&self, id: TypeId) -> bool {
        crate::list_map::key_index(self.resources(), id, 0) < self.resources().len()
    }

    /// Whether `prepared` can be the request that the handler of a route
    /// gets for `request`: the request with a flow that holds the router's
    /// resources, after the middlewares of the phase before handling, with
    /// the values of the route bound to it.
    pub open spec fn hands_over(
        &self,
        request: HttpRequest,
        route: FoundRoute<H>,
        prepared: HttpRequest,
    ) -> bool {
        exists|flowed: HttpRequest, shaped: HttpRequest|
            {
                &&& same_message(request, flowed)
                &&& flowed.path_values is None
                &&& flowed.flow matches Some(flow) && flow.resources.listing() == self.resources()
                    && !flow.interrupted
                &&& #[trigger] ran_before(
                    self.middlewares(),
                    run_order(self.middlewares(), Phase::Before),
                    run_order(self.middlewares(), Phase::Before).len() as int,
                    flowed,
                    shaped,
                )
                &&& same_message(shaped, prepared)
                &&& prepared.flow == flowed.flow
                &&& prepared.path_values matches Some(values) && values.params.listing()
                    == route.params && values.queries.listing() == route.queries
            }
    }

    /// Whether `response` can be the answer to `request` over a route: what
    /// the handler of the route makes of the prepared request, after the
    /// middlewares of the phase after handling.
    pub open spec fn routes(&self, request: HttpRequest, route: FoundRoute<H>, response: HttpResponse) -> bool {
        exists|prepared: HttpRequest, answer: HttpResponse|
            {
                &&& self.hands_over(request, route, prepared)
                &&& prepared.flow is Some
                &&& #[trigger] route.handler.answers(prepared, answer)
                &&& ran_after(
                    self.middlewares(),
                    run_order(self.middlewares(), Phase::After),
                    run_order(self.middlewares(), Phase::After).len() as int,
                    *prepared.flow->0,
                    answer,
                    response,
                )
            }
    }

    /// A router with no route, no resource and no middleware.
    pub fn new() -> (router: Self)
        ensures
            router.tree() == RouteTree::<H>::empty(),
            router.resources() == Seq::<(TypeId, SharedResource)>::empty(),
            router.middlewares() == Seq::<M>::empty(),
    {
        Router { root: RouteNode::new(), resources: ResourceMap::new(), middlewares: MiddlewareChain::new() }
    }

    /// Registers a handler under a pattern.
    pub fn insert_handler(self, path: &str, handler: H) -> (router: Self)
        ensures
            router.tree() == self.tree().with_route(segments(path@), 0, handler),
            router.resources() == self.resources(),
            router.middlewares() == self.middlewares(),
    {
        let mut router = self;
        router.root.insert(path, handler);
        router
    }

    /// Registers a handler under a pattern.
    pub fn add_handler(self, path: &str, handler: H) -> (router: Self)
        ensures
            router.tree() == self.tree().with_route(segments(path@), 0, handler),
            router.resources() == self.resources(),
            router.middlewares() == self.middlewares(),
    {
        self.insert_handler(path, handler)
    }

    /// Registers an endpoint: a pattern with its handler.
    pub fn add_endpoint(self, endpoint: (&str, H)) -> (router: Self)
        ensures
            router.tree() == self.tree().with_route(segments(endpoint.0@), 0, endpoint.1),
            router.resources() == self.resources(),
            router.middlewares() == self.middlewares(),
    {
        self.add_handler(endpoint.0, endpoint.1)
    }

    /// Whether a resource is registered for the type of a token.
    pub fn has_resource(&self, id: &TypeId) -> (b: bool)
        ensures
            b == self.has(*id),
    {
        self.resources.contains_key(id)
    }

    /// Registers a resource for the type of a token. A type has one
    /// resource: to register a second one for it is a mistake in the set-up
    /// of the server.
    pub fn add_resource(self, id: TypeId, resource: SharedResource) -> (router: Self)
        requires
            !self.has(id),
        ensures
            router.resources() == self.resources().push((id, resource)),
            router.has(id),
            router.tree() == self.tree(),
            router.middlewares() == self.middlewares(),
    {
        let mut router = self;
        router.resources.insert(id, resource);
        proof {
            let before = self.resources();
            let after = before.push((id, resource));
            crate::list_map::lemma_key_index(before, id, 0);
            assert forall|j: int| 0 <= j < before.len() implies (#[trigger] after[j]).0 != id by {
                assert(before[j].0 != id);
            }
            crate::list_map::lemma_key_index_is(after, id, 0, before.len() as int);
        }
        router
    }

    /// Registers a resource for the type of a token, unless the type has one
    /// already: then the router comes back unchanged, with the resource that
    /// was refused.
    pub fn try_add_resource(self, id: TypeId, resource: SharedResource) -> (result: Result<
        Self,
        (Self, SharedResource),
    >)
        ensures
            match result {
                Ok(router) => !self.has(id) && router.resources() == self.resources().push(
                    (id, resource),
                ) && router.has(id) && router.tree() == self.tree() && router.middlewares()
                    == self.middlewares(),
                Err((router, refused)) => self.has(id) && router == self && refused == resource,
            },
    {
        if self.has_resource(&id) {
            Err((self, resource))
        } else {
            Ok(self.add_resource(id, resource))
        }
    }

    /// Adds a middleware behind those that are there.
    pub fn add_middleware(self, middleware: M) -> (router: Self)
        ensures
            router.middlewares() == self.middlewares().push(middleware),
            router.tree() == self.tree(),
            router.resources() == self.resources(),
    {
        let mut router = self;
        router.middlewares.add_middleware(middleware);
        router
    }

    /// Another handle to each resource, for the flow of one request.
    pub fn clone_resources(&self) -> (copy: ResourceMap)
        ensures
            copy.listing() == self.resources(),
    {
        self.resources.clone_all()
    }

    /// Answers a request. There is no answer where no route is found for
    /// the path, or where the handler of the route does not accept the
    /// method. Otherwise the request gets a flow with the router's resources,
    /// passes the middlewares, gets the values of the route bound to it and
    /// goes to the handler; the handler's response passes the middlewares and
    /// is the answer.
    pub fn route(&self, request: HttpRequest) -> (answer: Option<HttpResponse>)
        requires
            well_formed_query(request.path@),
            request.flow is None,
            request.path_values is None,
        ensures
            match self.tree().find(request.path@) {
                Some(route) => if route.handler.accepts(request.method) {
                    answer matches Some(response) && self.routes(request, route, response)
                } else {
                    answer is None
                },
                None => answer is None,
            },
    {
        let ghost given = request;
        let found = match self.root.find(request.path.as_str()) {
            Some(found) => found,
            None => {
                return None;
            },
        };
        let ghost route = self.tree().find(request.path@)->0;
        let handler = found.handler;
        if !handler.handles_method(request.method) {
            return None;
        }
        let flow = Arc::new(RequestFlow::new(self.clone_resources()));
        let mut request = request;
        request.set_flow(share_flow(&flow));
        let ghost flowed = request;
        self.middlewares.apply_before(&mut request);
        let ghost shaped = request;
        request.set_route_path(found.into_path_values());
        let ghost prepared = request;
        assert(ran_before(
            self.middlewares(),
            run_order(self.middlewares(), Phase::Before),
            run_order(self.middlewares(), Phase::Before).len() as int,
            flowed,
            shaped,
        ));
        assert(self.hands_over(given, route, prepared));
        let mut response = handler.handle(request);
        let ghost first = response;
        self.middlewares.apply_after(&flow, &mut response);
        assert(route.handler.answers(prepared, first));
        Some(response)
    }
}

} // verus!
