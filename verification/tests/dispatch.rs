use altaria::extractor::param::Param;
use altaria::extractor::query::{NamedExtractor, OptionalQuery, Query};
use altaria::extractor::state::{Resource, ResourceMap, ResourceObligations, SharedResource};
use altaria::extractor::{ExtractorError, FromRequest, FromText};
use altaria::json::{response_of_json, JsonBody};
use altaria::middleware::log::LoggingMiddleware;
use altaria::middleware::{Middleware, MiddlewareChain, MiddlewarePriority, Phase};
use altaria::parser::body::LazyBodyReader;
use altaria::protocol::alpha::AlphaHttpProtocol;
use altaria::protocol::beta::BetaHttpProtocol;
use altaria::protocol::{HttpProtocolError, ServerBuildError};
use altaria::request::{
    HttpHeader, HttpHeaderMap, HttpMethod, HttpProtocol, HttpRequest, HttpScheme, RoutePathValues,
    TextMap,
};
use altaria::response::into::IntoResponse;
use altaria::response::{HttpResponse, HttpStatusCode};
use altaria::router::flow::RequestFlow;
use altaria::router::func::{
    dispatch0, dispatch1, dispatch2, dispatch3, extract_three, extract_two, function_handler,
    handle_function_failure, CallbackRouteHandler, FunctionHandler, FunctionRouteHandler,
};
use altaria::router::handler::RouteHandler;
use altaria::router::Router;
use altaria::util::Either;
use std::any::TypeId;
use std::sync::atomic::{AtomicUsize, Ordering};
use std::sync::Arc;

fn request(method: HttpMethod, path: &str) -> HttpRequest {
    HttpRequest {
        protocol: HttpProtocol::HTTP1,
        scheme: HttpScheme::HTTP,
        path: path.to_string(),
        method,
        headers: HttpHeaderMap::new(),
        flow: None,
        peer_addr: "127.0.0.1:9".to_string(),
        content_length: 0,
        body_reader: LazyBodyReader::new(0),
        path_values: None,
    }
}

fn bound(params: &[(&str, &str)], queries: &[(&str, &str)]) -> HttpRequest {
    let mut request = request(HttpMethod::GET, "/");
    let mut p = TextMap::new();
    for (k, v) in params {
        p.insert(k.to_string(), v.to_string());
    }
    let mut q = TextMap::new();
    for (k, v) in queries {
        q.insert(k.to_string(), v.to_string());
    }
    request.set_flow(Arc::new(RequestFlow::new(ResourceMap::new())));
    request.set_route_path(RoutePathValues { params: p, queries: q });
    request
}

struct Echo {
    method: Option<HttpMethod>,
    tag: &'static str,
}

impl RouteHandler for Echo {
    fn accepts(&self, method: HttpMethod) -> bool {
        self.handles_method(method)
    }

    fn answers(&self, _request: HttpRequest, _response: HttpResponse) -> bool {
        true
    }

    fn handles_method(&self, method: HttpMethod) -> bool {
        self.method.map_or(true, |m| m == method)
    }

    fn handle(&self, request: HttpRequest) -> HttpResponse {
        let values = request.path_values.as_ref().expect("path values");
        let mut body = format!("{}:{}", self.tag, request.path);
        for i in 0..values.params.len() {
            body.push_str(&format!(" {}={}", values.params.key(i), values.params.value(i)));
        }
        for i in 0..values.queries.len() {
            body.push_str(&format!(" ?{}={}", values.queries.key(i), values.queries.value(i)));
        }
        let flow = request.flow.as_ref().expect("a flow");
        body.push_str(&format!(" resources={}", flow.resources.len()));
        if let Some(mark) = request.headers.get(&HttpHeader::Custom("x-seen".to_string())) {
            body.push_str(&format!(" seen={}", mark));
        }
        body.into_response()
    }
}

struct Mark {
    before: Option<MiddlewarePriority>,
    after: Option<MiddlewarePriority>,
    name: &'static str,
}

impl Middleware for Mark {
    fn spec_before_priority(&self) -> Option<MiddlewarePriority> {
        self.before
    }

    fn spec_after_priority(&self) -> Option<MiddlewarePriority> {
        self.after
    }

    fn acts_before(&self, _given: HttpRequest, _made: HttpRequest) -> bool {
        true
    }

    fn acts_after(&self, _flow: RequestFlow, _given: HttpResponse, _made: HttpResponse) -> bool {
        true
    }

    fn before_priority(&self) -> Option<MiddlewarePriority> {
        self.before
    }

    fn after_priority(&self) -> Option<MiddlewarePriority> {
        self.after
    }

    fn act_before(&self, req: &mut HttpRequest) {
        let key = HttpHeader::Custom("x-seen".to_string());
        let seen = req.headers.get(&key).cloned().unwrap_or_default();
        req.headers.insert(key, format!("{}{}", seen, self.name));
    }

    fn act_after(&self, _flow: &Arc<RequestFlow>, response: &mut HttpResponse) {
        let key = HttpHeader::Custom("x-after".to_string());
        let seen = response.headers.get(&key).cloned().unwrap_or_default();
        response.headers.insert(key, format!("{}{}", seen, self.name));
    }
}

fn mark(before: Option<MiddlewarePriority>, after: Option<MiddlewarePriority>, name: &'static str) -> Mark {
    Mark { before, after, name }
}

static SECOND_CALLS: AtomicUsize = AtomicUsize::new(0);

struct Failing;

impl FromRequest for Failing {
    fn extracts(_index: usize, _request: HttpRequest, result: Result<Self, ExtractorError>) -> bool {
        result.is_err()
    }

    fn from_request(_index: usize, _request: &HttpRequest) -> Result<Self, ExtractorError> {
        Err(ExtractorError::BodyParseError)
    }
}

struct Counted;

impl FromRequest for Counted {
    fn extracts(_index: usize, _request: HttpRequest, result: Result<Self, ExtractorError>) -> bool {
        result.is_err()
    }

    fn from_request(_index: usize, _request: &HttpRequest) -> Result<Self, ExtractorError> {
        SECOND_CALLS.fetch_add(1, Ordering::SeqCst);
        Err(ExtractorError::UnregisteredExtension)
    }
}

#[test]
fn a_failed_first_extractor_stops_the_extraction() {
    let request = bound(&[], &[]);
    let before = SECOND_CALLS.load(Ordering::SeqCst);
    let result = extract_two::<Failing, Counted>(&request);
    assert_eq!(result.err(), Some(ExtractorError::BodyParseError));
    assert_eq!(SECOND_CALLS.load(Ordering::SeqCst), before);
    let response = dispatch2(&|_a: Failing, _b: Counted| "never", request);
    assert_eq!(response.status_code, HttpStatusCode::BadRequest);
    assert_eq!(response.body, b"The body of the request could not be parsed".to_vec());
    assert_eq!(SECOND_CALLS.load(Ordering::SeqCst), before);
}

#[test]
fn extraction_goes_in_declared_order() {
    let request = bound(&[("id", "7"), ("name", "pen")], &[("page", "2")]);
    let two = extract_two::<Param<usize>, Param<String>>(&request).ok().expect("both");
    assert_eq!((two.0).0, 7);
    assert_eq!((two.1).0, "pen");
    let three = extract_three::<Param<usize>, Param<String>, Query<u32>>(&request).ok().expect("all");
    assert_eq!((three.2).0, 2);
    let wrong = extract_three::<Param<usize>, Param<usize>, Query<u32>>(&request);
    assert_eq!(wrong.err(), Some(ExtractorError::WrongProvidedFormat));
    let missing = extract_three::<Param<usize>, Param<String>, Param<String>>(&request);
    assert_eq!(missing.err(), Some(ExtractorError::UnregisteredPath));
}

#[test]
fn handlers_are_called_with_what_was_extracted() {
    let hello = dispatch0(&|| "hello", bound(&[], &[]));
    assert_eq!(hello.body, b"hello".to_vec());
    let one = dispatch1(&|id: Param<usize>| format!("id {}", id.0 + 1), bound(&[("id", "41")], &[]));
    assert_eq!(one.status_code, HttpStatusCode::OK);
    assert_eq!(one.body, b"id 42".to_vec());
    let two = dispatch2(
        &|id: Param<usize>, page: Query<u32>| (HttpStatusCode::Created, format!("{} {}", id.0, page.0)),
        bound(&[("id", "1")], &[("page", "9")]),
    );
    assert_eq!(two.status_code, HttpStatusCode::Created);
    assert_eq!(two.body, b"1 9".to_vec());
    let three = dispatch3(
        &|a: Param<String>, b: Param<String>, c: Query<String>| format!("{}{}{}", a.0, b.0, c.0),
        bound(&[("a", "x"), ("b", "y")], &[("c", "z")]),
    );
    assert_eq!(three.body, b"xyz".to_vec());
    let failed = dispatch1(&|id: Param<usize>| format!("{}", id.0), bound(&[("id", "x")], &[]));
    assert_eq!(failed.status_code, HttpStatusCode::BadRequest);
    assert_eq!(failed.body, b"The provided value could not be parsed".to_vec());
}

#[test]
fn failures_map_to_their_statuses() {
    let cases = [
        (ExtractorError::UnregisteredExtension, HttpStatusCode::InternalServerError),
        (ExtractorError::UnregisteredPath, HttpStatusCode::InternalServerError),
        (ExtractorError::WrongProvidedFormat, HttpStatusCode::BadRequest),
        (ExtractorError::BodyParseError, HttpStatusCode::BadRequest),
        (ExtractorError::UnexpectedContentType, HttpStatusCode::BadRequest),
        (ExtractorError::MissingQueryParameter, HttpStatusCode::BadRequest),
    ];
    for (error, status) in cases {
        let response = handle_function_failure(error);
        assert_eq!(response.status_code, status);
        assert_eq!(
            response.headers.get(&HttpHeader::ContentType),
            Some(&"text/plain".to_string())
        );
        assert!(!response.body.is_empty());
    }
    assert_eq!(
        handle_function_failure(ExtractorError::MissingQueryParameter).body,
        b"The request did not have the expected query parameter".to_vec()
    );
    assert_eq!(
        handle_function_failure(ExtractorError::UnregisteredPath).body,
        b"altaria: This route handler expected a path value that wasn't registered in the router declaration".to_vec()
    );
}

#[test]
fn parameters_and_queries_are_extracted() {
    let request = bound(&[("id", "7")], &[("page", "2"), ("sort", "asc")]);
    assert_eq!(Param::<usize>::from_request(0, &request).ok().map(|p| p.0), Some(7));
    assert_eq!(Param::<usize>::from_request(1, &request).err(), Some(ExtractorError::UnregisteredPath));
    assert_eq!(Query::<u32>::from_request(1, &request).ok().map(|q| q.0), Some(2));
    assert_eq!(Query::<String>::from_request(2, &request).ok().map(|q| q.0), Some("asc".to_string()));
    assert_eq!(Query::<u32>::from_request(3, &request).err(), Some(ExtractorError::MissingQueryParameter));
    assert_eq!(Query::<u32>::from_request(0, &request).err(), Some(ExtractorError::MissingQueryParameter));
    assert_eq!(Query::<u32>::from_request(2, &request).err(), Some(ExtractorError::WrongProvidedFormat));
    assert_eq!(Query::<u32>::from_request_by_name("page", &request).ok().map(|q| q.0), Some(2));
    assert_eq!(
        Query::<u32>::from_request_by_name("size", &request).err(),
        Some(ExtractorError::MissingQueryParameter)
    );
    assert_eq!(
        Query::<u32>::from_request_by_name("sort", &request).err(),
        Some(ExtractorError::WrongProvidedFormat)
    );
    assert_eq!(OptionalQuery::<u32>::from_request_by_name("page", &request).ok().map(|q| q.0), Some(Some(2)));
    assert_eq!(OptionalQuery::<u32>::from_request_by_name("size", &request).ok().map(|q| q.0), Some(None));
    assert_eq!(
        OptionalQuery::<u32>::from_request_by_name("sort", &request).err(),
        Some(ExtractorError::WrongProvidedFormat)
    );
    assert_eq!(Param::new(3).0, 3);
    assert_eq!(Query::new("q").0, "q");
}

#[test]
fn texts_are_read_as_values() {
    assert_eq!(String::from_text("a b"), Some("a b".to_string()));
    assert_eq!(usize::from_text("12"), Some(12));
    assert_eq!(usize::from_text("x"), None);
    assert_eq!(u32::from_text("4294967295"), Some(u32::MAX));
    assert_eq!(u32::from_text("4294967296"), None);
}

#[test]
fn resources_are_kept_by_type() {
    let mut flow = RequestFlow::new(ResourceMap::new());
    let text = TypeId::of::<Resource<&'static str>>();
    let number = TypeId::of::<Resource<u32>>();
    flow.add_resource(text, Resource::new("Altaria"));
    flow.insert_resource(number, SharedResource::new(Resource::new(7u32)));
    assert_eq!(flow.get_resource::<&'static str>(&text), Some(&"Altaria"));
    assert_eq!(flow.get_resource::<u32>(&number), Some(&7));
    assert_eq!(flow.get_resource::<u32>(&text), None);
    assert_eq!(flow.get_resource::<u64>(&TypeId::of::<Resource<u64>>()), None);
    assert!(flow.find_resource(&number).is_some());
    assert!(flow.find_resource(&TypeId::of::<u8>()).is_none());
    assert_eq!(flow.resources.len(), 2);
    flow.add_resource(text, Resource::new("Again"));
    assert_eq!(flow.resources.len(), 2);
    assert_eq!(flow.get_resource::<&'static str>(&text), Some(&"Again"));
    assert!(!flow.interrupted);
    flow.interrupt();
    assert!(flow.interrupted);
    flow.set_resources(ResourceMap::new());
    assert_eq!(flow.resources.len(), 0);
}

#[test]
fn resource_handles_share_their_value() {
    let handle = SharedResource::new(Arc::new(AtomicUsize::new(1)));
    let copy = handle.share();
    handle.get::<Arc<AtomicUsize>>().expect("a counter").fetch_add(1, Ordering::SeqCst);
    assert_eq!(copy.get::<Arc<AtomicUsize>>().expect("a counter").load(Ordering::SeqCst), 2);
    assert!(copy.get::<u8>().is_none());
    let mut map = ResourceMap::new();
    assert!(map.insert(TypeId::of::<u8>(), handle).is_none());
    assert!(map.insert(TypeId::of::<u8>(), copy).is_some());
    assert!(map.contains_key(&TypeId::of::<u8>()));
    assert!(!map.contains_key(&TypeId::of::<u16>()));
    let cloned = map.clone_all();
    assert_eq!(cloned.len(), 1);
    assert!(cloned.get(&TypeId::of::<u8>()).is_some());
}

#[test]
fn resources_are_extracted_from_the_flow() {
    let mut resources = ResourceMap::new();
    resources.insert(TypeId::of::<Resource<u32>>(), SharedResource::new(Resource::new(5u32)));
    let mut request = request(HttpMethod::GET, "/");
    request.set_flow(Arc::new(RequestFlow::new(resources)));
    request.set_route_path(RoutePathValues { params: TextMap::new(), queries: TextMap::new() });
    assert_eq!(Resource::<u32>::from_request(0, &request).ok().map(|r| r.0), Some(5));
    assert_eq!(
        Resource::<u64>::from_request(0, &request).err(),
        Some(ExtractorError::UnregisteredExtension)
    );
    assert_eq!(Resource::from_found(Some(1)).ok().map(|r| r.0), Some(1));
    assert_eq!(Resource::value_of(Some(&Resource::new(4))), Some(&4));
    assert_eq!(Resource::<u8>::value_of(None), None);
    assert_eq!(Resource::<u8>::from_found(None).err(), Some(ExtractorError::UnregisteredExtension));
}

#[test]
fn registering_a_resource_twice_fails() {
    let router: Router<Echo, Mark> = Router::new();
    let id = TypeId::of::<Resource<u32>>();
    assert!(!router.has_resource(&id));
    let router = router.add_resource(id, SharedResource::new(Resource::new(1u32)));
    assert!(router.has_resource(&id));
    let refused = router.try_add_resource(id, SharedResource::new(Resource::new(2u32)));
    let (router, handle) = refused.err().expect("a refusal");
    assert_eq!(handle.get::<Resource<u32>>().map(|r| r.0), Some(2));
    assert_eq!(router.clone_resources().len(), 1);
    let other = TypeId::of::<Resource<u8>>();
    let router = router.try_add_resource(other, SharedResource::new(Resource::new(3u8))).ok().expect("added");
    assert_eq!(router.clone_resources().len(), 2);
}

#[test]
fn router_answers_through_route_and_middleware() {
    let router: Router<Echo, Mark> = Router::new()
        .add_resource(TypeId::of::<Resource<u32>>(), SharedResource::new(Resource::new(1u32)))
        .insert_handler("/users/{id}", Echo { method: Some(HttpMethod::GET), tag: "user" })
        .add_handler("/users/me", Echo { method: None, tag: "me" })
        .add_endpoint(("/", Echo { method: None, tag: "root" }))
        .add_middleware(mark(Some(MiddlewarePriority::Late), Some(MiddlewarePriority::Early), "L"))
        .add_middleware(mark(Some(MiddlewarePriority::Early), None, "E"))
        .add_middleware(mark(None, Some(MiddlewarePriority::Earliest), "N"))
        .add_middleware(mark(Some(MiddlewarePriority::Early), Some(MiddlewarePriority::Latest), "F"));
    let response = router.route(request(HttpMethod::GET, "/users/7?x=1")).expect("an answer");
    assert_eq!(response.status_code, HttpStatusCode::OK);
    assert_eq!(
        String::from_utf8(response.body.clone()).expect("text"),
        "user:/users/7?x=1 id=7 ?x=1 resources=1 seen=EFL"
    );
    assert_eq!(
        response.headers.get(&HttpHeader::Custom("x-after".to_string())),
        Some(&"FLN".to_string())
    );
    let me = router.route(request(HttpMethod::POST, "/users/me")).expect("an answer");
    assert!(String::from_utf8(me.body).expect("text").starts_with("me:/users/me resources=1"));
    assert!(router.route(request(HttpMethod::POST, "/users/7")).is_none());
    assert!(router.route(request(HttpMethod::GET, "/nowhere")).is_none());
    assert!(router.route(request(HttpMethod::GET, "")).is_some());
}

#[test]
fn middlewares_run_by_before_priority() {
    let mut chain: MiddlewareChain<Mark> = MiddlewareChain::new();
    chain.add_middleware(mark(Some(MiddlewarePriority::Monitor), Some(MiddlewarePriority::Earliest), "a"));
    chain.add_middleware(mark(Some(MiddlewarePriority::Standard), None, "b"));
    chain.add_middleware(mark(None, Some(MiddlewarePriority::Earliest), "c"));
    chain.add_middleware(mark(Some(MiddlewarePriority::Earliest), Some(MiddlewarePriority::Monitor), "d"));
    chain.add_middleware(mark(Some(MiddlewarePriority::Standard), Some(MiddlewarePriority::Late), "e"));
    assert_eq!(chain.sort_middlewares(Phase::Before), vec![3, 1, 4, 0]);
    assert_eq!(chain.sort_middlewares(Phase::After), vec![3, 4, 0, 2]);
    let mut req = request(HttpMethod::GET, "/");
    chain.apply_before(&mut req);
    assert_eq!(req.headers.get(&HttpHeader::Custom("x-seen".to_string())), Some(&"dbea".to_string()));
    let mut response = HttpResponse::empty(HttpStatusCode::OK);
    chain.apply_after(&Arc::new(RequestFlow::new(ResourceMap::new())), &mut response);
    assert_eq!(
        response.headers.get(&HttpHeader::Custom("x-after".to_string())),
        Some(&"deac".to_string())
    );
    assert_eq!(MiddlewarePriority::Latest.level(), 4);
    assert!(MiddlewarePriority::Earliest < MiddlewarePriority::Monitor);
}

#[test]
fn logging_middleware_watches_without_changing() {
    let logging = LoggingMiddleware::new();
    assert_eq!(logging.before_priority(), Some(MiddlewarePriority::Monitor));
    assert_eq!(logging.after_priority(), Some(MiddlewarePriority::Monitor));
    let mut req = request(HttpMethod::GET, "/x");
    logging.act_before(&mut req);
    assert_eq!(req.path, "/x");
    assert!(req.headers.is_empty());
    let mut response = HttpResponse::empty(HttpStatusCode::OK);
    logging.act_after(&Arc::new(RequestFlow::new(ResourceMap::new())), &mut response);
    assert!(response.headers.is_empty());
}

#[test]
fn callback_handlers_answer_their_method() {
    let any = function_handler(|request: HttpRequest| format!("saw {}", request.path));
    assert!(any.handles_method(HttpMethod::GET));
    assert!(any.handles_method(HttpMethod::DELETE));
    assert_eq!(any.handle(bound(&[], &[])).body, b"saw /".to_vec());
    let only = CallbackRouteHandler::new(Some(HttpMethod::PUT), |_request: HttpRequest| HttpStatusCode::NoContent);
    assert!(only.handles_method(HttpMethod::PUT));
    assert!(!only.handles_method(HttpMethod::GET));
    assert_eq!(only.handle(bound(&[], &[])).status_code, HttpStatusCode::NoContent);
}

#[test]
fn protocol_answers_with_bytes() {
    let router: Router<Echo, LoggingMiddleware> = Router::new()
        .insert_handler("/hello", Echo { method: Some(HttpMethod::GET), tag: "hi" });
    let protocol = AlphaHttpProtocol::link_router(router);
    let found = protocol.answer(request(HttpMethod::GET, "/hello"));
    assert_eq!(found.status_code, HttpStatusCode::OK);
    let missing = protocol.answer(request(HttpMethod::GET, "/nothing"));
    assert_eq!(missing.status_code, HttpStatusCode::NotFound);
    assert!(missing.body.is_empty());
    assert_eq!(missing.headers.get(&HttpHeader::ContentType), Some(&"text/plain".to_string()));
    let wrong_method = protocol.answer(request(HttpMethod::POST, "/hello"));
    assert_eq!(wrong_method.status_code, HttpStatusCode::NotFound);
    let broken = protocol.answer(request(HttpMethod::GET, "/hello?broken"));
    assert_eq!(broken.status_code, HttpStatusCode::InternalServerError);
    let bytes = protocol
        .serve("peer", b"GET /hello HTTP/1.1\r\nContent-Length: 0\r\n\r\n")
        .expect("an answer");
    let text = String::from_utf8(bytes).expect("text");
    assert!(text.starts_with("HTTP/1.1 200\r\nContent-Type: text/plain\r\nDate: "));
    assert!(text.contains("\r\nServer: altaria\r\nContent-Length: 21\r\n\r\n"));
    assert!(text.ends_with("\r\n\r\nhi:/hello resources=0"));
    assert!(protocol.serve("peer", b"nonsense").is_none());
    let mut unset: AlphaHttpProtocol<Echo, LoggingMiddleware> = AlphaHttpProtocol::new();
    assert!(unset.router.is_none());
    unset.set_router(Router::new());
    assert!(unset.router.is_some());
}

#[test]
fn second_protocol_greets() {
    let mut protocol = BetaHttpProtocol::new();
    assert!(protocol.serve("peer", b"GET / HTTP/1.1\r\n\r\n").is_none());
    let mut data = b"PRI * HTTP/2.0\r\n\r\nSM\r\n\r\n".to_vec();
    data.extend_from_slice(&[0, 0, 2, 1, 4, 0, 0, 0, 1, 0x82, 0x84]);
    let bytes = protocol.serve("peer", &data).expect("frames");
    assert_eq!(bytes[3], 0x1);
    assert!(bytes.ends_with(b"Hello, world!"));
    let tail = &bytes[bytes.len() - 13 - 9..bytes.len() - 13];
    assert_eq!(tail, &[0, 0, 13, 0, 1, 0, 0, 0, 1]);
}

#[test]
fn errors_carry_their_message() {
    assert_eq!(HttpProtocolError::new("port in use").message, "port in use");
    assert_eq!(ServerBuildError::UndefinedAddress, ServerBuildError::UndefinedAddress);
}

#[test]
fn json_bodies_are_checked_and_wrapped() {
    let mut request = request(HttpMethod::POST, "/");
    assert_eq!(
        JsonBody::<u8>::check_content_type(&request),
        Err(ExtractorError::UnexpectedContentType)
    );
    request.headers.insert(HttpHeader::ContentType, "text/plain".to_string());
    assert_eq!(
        JsonBody::<u8>::check_content_type(&request),
        Err(ExtractorError::UnexpectedContentType)
    );
    request.headers.insert(HttpHeader::ContentType, "application/json".to_string());
    assert_eq!(JsonBody::<u8>::check_content_type(&request), Ok(()));
    assert_eq!(JsonBody::from_parsed(Some(3)).ok().map(|b| b.0), Some(3));
    assert_eq!(JsonBody::<u8>::from_parsed(None).err(), Some(ExtractorError::BodyParseError));
    let response = response_of_json(b"{}".to_vec());
    assert_eq!(response.status_code, HttpStatusCode::OK);
    assert_eq!(
        response.headers.get(&HttpHeader::ContentType),
        Some(&"application/json".to_string())
    );
    assert_eq!(response.body, b"{}".to_vec());
}

#[test]
fn either_is_one_of_two() {
    let left: Either<u8, &str> = Either::left(1);
    let right: Either<u8, &str> = Either::right("r");
    assert!(left.is_left() && !left.is_right());
    assert!(right.is_right() && !right.is_left());
    assert_eq!(left.get_left(), Some(&1));
    assert_eq!(left.get_right(), None);
    assert_eq!(right.get_right(), Some(&"r"));
    assert_eq!(right.get_left(), None);
    let mut changed: Either<u8, &str> = Either::left(1);
    *changed.left_mut().expect("left") = 9;
    assert_eq!(changed.get_left(), Some(&9));
    assert!(changed.right_mut().is_none());
    let mut other: Either<u8, &str> = Either::right("a");
    *other.right_mut().expect("right") = "b";
    assert_eq!(other.get_right(), Some(&"b"));
    assert!(other.left_mut().is_none());
    assert_eq!(Either::<u8, &str>::left(2).map_left(|l| l + 1).get_left(), Some(&3));
    assert_eq!(Either::<u8, &str>::right("x").map_left(|l| l + 1).get_right(), Some(&"x"));
    assert_eq!(Either::<u8, &str>::right("x").map_right(|r| r.len()).get_right(), Some(&1));
    assert_eq!(Either::<u8, &str>::left(2).map_right(|r| r.len()).get_left(), Some(&2));
    assert_eq!(
        Either::<u8, &str>::left(2).flatmap_left(|l| Either::<u16, &str>::left(l as u16 * 200)).get_left(),
        Some(&400)
    );
    assert_eq!(
        Either::<u8, &str>::right("x").flatmap_left(|l| Either::<u16, &str>::left(l as u16)).get_right(),
        Some(&"x")
    );
    assert_eq!(
        Either::<u8, &str>::right("x").flatmap_right(|_| Either::<u8, bool>::left(5)).get_left(),
        Some(&5)
    );
    assert_eq!(
        Either::<u8, &str>::left(1).flatmap_right(|_| Either::<u8, bool>::right(true)).get_left(),
        Some(&1)
    );
    assert_eq!(Either::<u8, &str>::left(2).fold(|l| l * 2, |r| r.len()).get_left(), Some(&4));
    assert_eq!(Either::<u8, &str>::right("ab").fold(|l| l * 2, |r| r.len()).get_right(), Some(&2));
    assert_eq!(Either::<u8, &str>::left(2).unify(|l| l as usize, |r| r.len()), 2);
    assert_eq!(Either::<u8, &str>::right("abc").unify(|l| l as usize, |r| r.len()), 3);
    assert_eq!(Either::<u8, &str>::left(2).into_result(), Err(2));
    assert_eq!(Either::<u8, &str>::right("ok").into_result(), Ok("ok"));
    let response = Either::<HttpStatusCode, &str>::left(HttpStatusCode::Gone).into_response();
    assert_eq!(response.status_code, HttpStatusCode::Gone);
    let response = Either::<HttpStatusCode, &str>::right("text").into_response();
    assert_eq!(response.body, b"text".to_vec());
}

#[test]
fn functions_become_handlers() {
    let by_id = FunctionHandler::<_, (Param<usize>,)>::into_route_handler(
        |id: Param<usize>| format!("id {}", id.0),
        Some(HttpMethod::GET),
    );
    assert!(by_id.handles_method(HttpMethod::GET));
    assert!(!by_id.handles_method(HttpMethod::POST));
    assert_eq!(by_id.handle(bound(&[("id", "3")], &[])).body, b"id 3".to_vec());
    assert_eq!(by_id.handle(bound(&[], &[])).status_code, HttpStatusCode::InternalServerError);
    let plain = FunctionHandler::<_, ()>::into_route_handler(|| HttpStatusCode::NoContent, None);
    assert!(plain.handles_method(HttpMethod::DELETE));
    assert_eq!(plain.handle(bound(&[], &[])).status_code, HttpStatusCode::NoContent);
    let pair = |a: Param<String>, b: Query<u32>| format!("{}{}", a.0, b.0);
    let response = FunctionRouteHandler::<(Param<String>, Query<u32>)>::handle_request(
        &pair,
        bound(&[("a", "x")], &[("b", "1")]),
    );
    assert_eq!(response.body, b"x1".to_vec());
    let router: Router<_, LoggingMiddleware> = Router::new().insert_handler("/items/{id}", by_id);
    let answer = router.route(request(HttpMethod::GET, "/items/12")).expect("an answer");
    assert_eq!(answer.body, b"id 12".to_vec());
    let wrong = router.route(request(HttpMethod::GET, "/items/twelve")).expect("an answer");
    assert_eq!(wrong.status_code, HttpStatusCode::BadRequest);
}

#[test]
fn resources_and_responses_can_be_copied() {
    let resource = Resource::new(5u32);
    let handle = resource.clone_box();
    assert_eq!(handle.get::<Resource<u32>>().map(|r| r.0), Some(5));
    let mut headers = HttpHeaderMap::new();
    headers.insert(HttpHeader::Custom("a".to_string()), "1".to_string());
    headers.insert(HttpHeader::Host, "h".to_string());
    let response = HttpResponse { status_code: HttpStatusCode::Found, headers, body: vec![1, 2] };
    let copy = response.clone();
    assert_eq!(copy.status_code, HttpStatusCode::Found);
    assert_eq!(copy.body, vec![1, 2]);
    assert_eq!(copy.headers.len(), 2);
    assert_eq!(copy.headers.get(&HttpHeader::Custom("a".to_string())), Some(&"1".to_string()));
    assert_eq!(copy.headers.key(1), &HttpHeader::Host);
}
