//! Handlers made from functions, and what becomes of a failed extraction.

use crate::extractor::{ExtractorError, FromRequest};
use crate::request::{HttpMethod, HttpRequest};
use crate::response::into::{plain_text_headers, IntoResponse};
use crate::response::{HttpResponse, HttpStatusCode, ResponseView};
use crate::router::handler::RouteHandler;
use vstd::prelude::*;

verus! {

/// The status that answers a failed extraction: 500 where the router was
/// set up wrongly, 400 where the client sent something wrong.
pub open spec fn failure_status(err: ExtractorError) -> HttpStatusCode {
    match err {
        ExtractorError::UnregisteredExtension | ExtractorError::UnregisteredPath =>
            HttpStatusCode::InternalServerError,
        ExtractorError::WrongProvidedFormat
        | ExtractorError::BodyParseError
        | ExtractorError::UnexpectedContentType
        | ExtractorError::MissingQueryParameter => HttpStatusCode::BadRequest,
    }
}

/// The text that explains a failed extraction to the client.
pub open spec fn failure_message(err: ExtractorError) -> Seq<char> {
    match err {
        ExtractorError::UnregisteredExtension =>
            "altaria: This route handler expected an extension with a type that wasn't registered in the router declaration"@,
        ExtractorError::UnregisteredPath =>
            "altaria: This route handler expected a path value that wasn't registered in the router declaration"@,
        ExtractorError::WrongProvidedFormat => "The provided value could not be parsed"@,
        ExtractorError::BodyParseError => "The body of the request could not be parsed"@,
        ExtractorError::UnexpectedContentType =>
            "The request did not have the expected content type"@,
        ExtractorError::MissingQueryParameter =>
            "The request did not have the expected query parameter"@,
    }
}

/// The response that answers a failed extraction.
pub open spec fn failure_response(err: ExtractorError) -> ResponseView {
    ResponseView {
        status: failure_status(err),
        headers: plain_text_headers(),
        body: vstd::utf8::encode_utf8(failure_message(err)),
    }
}

/// The response that answers a failed extraction.
pub fn handle_function_failure(err: ExtractorError) -> (response: HttpResponse)
    ensures
        response@ == failure_response(err),
{
    match err {
        ExtractorError::UnregisteredExtension => (
            HttpStatusCode::InternalServerError,
            "altaria: This route handler expected an extension with a type that wasn't registered in the router declaration",
        ).into_response(),
        ExtractorError::UnregisteredPath => (
            HttpStatusCode::InternalServerError,
            "altaria: This route handler expected a path value that wasn't registered in the router declaration",
        ).into_response(),
        ExtractorError::WrongProvidedFormat => (
            HttpStatusCode::BadRequest,
            "The provided value could not be parsed",
        ).into_response(),
        ExtractorError::BodyParseError => (
            HttpStatusCode::BadRequest,
            "The body of the request could not be parsed",
        ).into_response(),
        ExtractorError::UnexpectedContentType => (
            HttpStatusCode::BadRequest,
            "The request did not have the expected content type",
        ).into_response(),
        ExtractorError::MissingQueryParameter => (
            HttpStatusCode::BadRequest,
            "The request did not have the expected query parameter",
        ).into_response(),
    }
}

/// Whether the router has bound its flow and its path values to a request.
pub open spec fn is_bound(request: HttpRequest) -> bool {
    request.flow is Some && request.path_values is Some
}

/// A handler made from a function that takes the request and returns
/// something that can be turned into a response. It answers one method, or
/// every method.
#[verifier::reject_recursive_types(R)]
pub struct CallbackRouteHandler<F: Fn(HttpRequest) -> R, R: IntoResponse> {
    method: Option<HttpMethod>,
    func: F,
    result: core::marker::PhantomData<R>,
}

impl<F: Fn(HttpRequest) -> R, R: IntoResponse> CallbackRouteHandler<F, R> {
    /// The method that the handler is restricted to, if it is.
    pub closed spec fn method(&self) -> Option<HttpMethod> {
        self.method
    }

    /// The function that the handler calls.
    pub closed spec fn callback(&self) -> F {
        self.func
    }

    #[verifier::type_invariant]
    closed spec fn inv(&self) -> bool {
        forall|request: HttpRequest| is_bound(request) ==> call_requires(self.func, (request,))
    }

    /// A handler for one method, or for every method, that calls
    /// `callback`.
    pub fn new(method: Option<HttpMethod>, callback: F) -> (handler: Self)
        requires
            forall|request: HttpRequest| is_bound(request) ==> call_requires(callback, (request,)),
        ensures
            handler.method() == method,
            handler.callback() == callback,
    {
        CallbackRouteHandler { method, func: callback, result: core::marker::PhantomData }
    }
}

impl<F: Fn(HttpRequest) -> R, R: IntoResponse> RouteHandler for CallbackRouteHandler<F, R> {
    open spec fn accepts(&self, method: HttpMethod) -> bool {
        match self.method() {
            Some(m) => m == method,
            None => true,
        }
    }

    fn handles_method(&self, method: HttpMethod) -> (b: bool) {
        match self.method {
            Some(m) => m == method,
            None => true,
        }
    }

    open spec fn answers(&self, request: HttpRequest, response: HttpResponse) -> bool {
        exists|out: R| #[trigger] call_ensures(self.callback(), (request,), out) && response@ == out.response()
    }

    fn handle(&self, request: HttpRequest) -> (response: HttpResponse) {
        proof {
            use_type_invariant(self);
            assert(is_bound(request));
        }
        let out = (self.func)(request);
        assert(call_ensures(self.callback(), (request,), out));
        out.into_response()
    }
}

/// A handler for every method that calls `callback`.
pub fn function_handler<F: Fn(HttpRequest) -> R, R: IntoResponse>(callback: F) -> (handler:
    CallbackRouteHandler<F, R>)
    requires
        forall|request: HttpRequest| is_bound(request) ==> call_requires(callback, (request,)),
    ensures
        handler.method() is None,
        handler.callback() == callback,
{
    CallbackRouteHandler::new(None, callback)
}

/// The results that taking two arguments from a request may have: the
/// first failure, or both values. Nothing is taken after a failure.
pub open spec fn extracts_two<E1: FromRequest, E2: FromRequest>(
    request: HttpRequest,
    result: Result<(E1, E2), ExtractorError>,
) -> bool {
    exists|first: Result<E1, ExtractorError>| #[trigger]
        E1::extracts(0, request, first) && match first {
            Err(e) => result == Err::<(E1, E2), ExtractorError>(e),
            Ok(a) => exists|second: Result<E2, ExtractorError>| #[trigger]
                E2::extracts(1, request, second) && result == match second {
                    Err(e) => Err::<(E1, E2), ExtractorError>(e),
                    Ok(b) => Ok((a, b)),
                },
        }
}

/// The results that taking three arguments from a request may have: the
/// first failure, or all three values. Nothing is taken after a failure.
pub open spec fn extracts_three<E1: FromRequest, E2: FromRequest, E3: FromRequest>(
    request: HttpRequest,
    result: Result<(E1, E2, E3), ExtractorError>,
) -> bool {
    exists|first: Result<(E1, E2), ExtractorError>| #[trigger]
        extracts_two::<E1, E2>(request, first) && match first {
            Err(e) => result == Err::<(E1, E2, E3), ExtractorError>(e),
            Ok(both) => exists|third: Result<E3, ExtractorError>| #[trigger]
                E3::extracts(2, request, third) && result == match third {
                    Err(e) => Err::<(E1, E2, E3), ExtractorError>(e),
                    Ok(c) => Ok((both.0, both.1, c)),
                },
        }
}

/// Takes the two arguments of a handler from a request, in order, and
/// stops at the first that fails.
pub fn extract_two<E1: FromRequest, E2: FromRequest>(request: &HttpRequest) -> (result: Result<
    (E1, E2),
    ExtractorError,
>)
    requires
        is_bound(*request),
    ensures
        extracts_two::<E1, E2>(*request, result),
{
    let first = E1::from_request(0, request);
    match first {
        Err(e) => {
            assert(E1::extracts(0, *request, Err::<E1, ExtractorError>(e)));
            Err(e)
        },
        Ok(a) => {
            let second = E2::from_request(1, request);
            assert(E1::extracts(0, *request, Ok::<E1, ExtractorError>(a)));
            assert(E2::extracts(1, *request, second));
            match second {
                Err(e) => Err(e),
                Ok(b) => Ok((a, b)),
            }
        },
    }
}

/// Takes the three arguments of a handler from a request, in order, and
/// stops at the first that fails.
pub fn extract_three<E1: FromRequest, E2: FromRequest, E3: FromRequest>(request: &HttpRequest) -> (result:
    Result<(E1, E2, E3), ExtractorError>)
    requires
        is_bound(*request),
    ensures
        extracts_three::<E1, E2, E3>(*request, result),
{
    let first = extract_two::<E1, E2>(request);
    match first {
        Err(e) => {
            assert(extracts_two::<E1, E2>(*request, Err::<(E1, E2), ExtractorError>(e)));
            Err(e)
        },
        Ok((a, b)) => {
            let third = E3::from_request(2, request);
            assert(extracts_two::<E1, E2>(*request, Ok::<(E1, E2), ExtractorError>((a, b))));
            assert(E3::extracts(2, *request, third));
            match third {
                Err(e) => Err(e),
                Ok(c) => Ok((a, b, c)),
            }
        },
    }
}

/// Answers a request with a handler that takes no argument.
pub fn dispatch0<F: Fn() -> R, R: IntoResponse>(handler: &F, request: HttpRequest) -> (response: HttpResponse)
    requires
        call_requires(*handler, ()),
    ensures
        exists|out: R| #[trigger] call_ensures(*handler, (), out) && response@ == out.response(),
{
    let out = handler();
    assert(call_ensures(*handler, (), out));
    out.into_response()
}

/// Answers a request with a handler that takes one argument: the argument
/// is taken from the request and the handler is called with it, or the
/// failure is answered.
pub fn dispatch1<F: Fn(E1) -> R, R: IntoResponse, E1: FromRequest>(handler: &F, request: HttpRequest) -> (response:
    HttpResponse)
    requires
        is_bound(request),
        forall|a: E1| call_requires(*handler, (a,)),
    ensures
        exists|taken: Result<E1, ExtractorError>| #[trigger]
            E1::extracts(0, request, taken) && match taken {
                Err(e) => response@ == failure_response(e),
                Ok(a) => exists|out: R| #[trigger]
                    call_ensures(*handler, (a,), out) && response@ == out.response(),
            },
{
    let taken = E1::from_request(0, &request);
    assert(E1::extracts(0, request, taken));
    match taken {
        Ok(a) => {
            let out = handler(a);
            assert(call_ensures(*handler, (a,), out));
            out.into_response()
        },
        Err(e) => handle_function_failure(e),
    }
}

/// Answers a request with a handler that takes two arguments: the
/// arguments are taken from the request in order and the handler is called
/// with them, or the first failure is answered.
pub fn dispatch2<F: Fn(E1, E2) -> R, R: IntoResponse, E1: FromRequest, E2: FromRequest>(
    handler: &F,
    request: HttpRequest,
) -> (response: HttpResponse)
    requires
        is_bound(request),
        forall|a: E1, b: E2| call_requires(*handler, (a, b)),
    ensures
        exists|taken: Result<(E1, E2), ExtractorError>| #[trigger]
            extracts_two::<E1, E2>(request, taken) && match taken {
                Err(e) => response@ == failure_response(e),
                Ok(both) => exists|out: R| #[trigger]
                    call_ensures(*handler, both, out) && response@ == out.response(),
            },
{
    let taken = extract_two::<E1, E2>(&request);
    assert(extracts_two::<E1, E2>(request, taken));
    match taken {
        Ok((a, b)) => {
            let out = handler(a, b);
            assert(call_ensures(*handler, (a, b), out));
            out.into_response()
        },
        Err(e) => handle_function_failure(e),
    }
}

/// Answers a request with a handler that takes three arguments: the
/// arguments are taken from the request in order and the handler is called
/// with them, or the first failure is answered.
pub fn dispatch3<
    F: Fn(E1, E2, E3) -> R,
    R: IntoResponse,
    E1: FromRequest,
    E2: FromRequest,
    E3: FromRequest,
>(handler: &F, request: HttpRequest) -> (response: HttpResponse)
    requires
        is_bound(request),
        forall|a: E1, b: E2, c: E3| call_requires(*handler, (a, b, c)),
    ensures
        exists|taken: Result<(E1, E2, E3), ExtractorError>| #[trigger]
            extracts_three::<E1, E2, E3>(request, taken) && match taken {
                Err(e) => response@ == failure_response(e),
                Ok(all) => exists|out: R| #[trigger]
                    call_ensures(*handler, all, out) && response@ == out.response(),
            },
{
    let taken = extract_three::<E1, E2, E3>(&request);
    assert(extracts_three::<E1, E2, E3>(request, taken));
    match taken {
        Ok((a, b, c)) => {
            let out = handler(a, b, c);
            assert(call_ensures(*handler, (a, b, c), out));
            out.into_response()
        },
        Err(e) => handle_function_failure(e),
    }
}

/// A function that answers requests with arguments that are taken from
/// them. `Extractors` are the types of the arguments, in order.
pub trait FunctionRouteHandler<Extractors>: Sized {
    /// Whether the function may be called with whatever arguments are taken
    /// from a request.
    spec fn ready(&self) -> bool;

    /// The responses that the function may give to a request.
    spec fn responds(&self, request: HttpRequest, response: HttpResponse) -> bool;

    /// Takes the arguments from the request, in order, and answers with what
    /// the function makes of them, or with the first failure.
    fn handle_request(&self, request: HttpRequest) -> (response: HttpResponse)
        requires
            self.ready(),
            is_bound(request),
        ensures
            self.responds(request, response),
    ;
}

/// A handler made from a function that takes extracted arguments.
#[verifier::reject_recursive_types(X)]
pub struct FunctionHandler<F: FunctionRouteHandler<X>, X> {
    method: Option<HttpMethod>,
    func: F,
    arguments: core::marker::PhantomData<X>,
}

impl<F: FunctionRouteHandler<X>, X> FunctionHandler<F, X> {
    /// The method that the handler is restricted to, if it is.
    pub closed spec fn method(&self) -> Option<HttpMethod> {
        self.method
    }

    /// The function that the handler calls.
    pub closed spec fn function(&self) -> F {
        self.func
    }

    #[verifier::type_invariant]
    closed spec fn inv(&self) -> bool {
        self.func.ready()
    }

    /// A handler for one method, or for every method, that answers with
    /// `function`.
    pub fn into_route_handler(function: F, method: Option<HttpMethod>) -> (handler: Self)
        requires
            function.ready(),
        ensures
            handler.method() == method,
            handler.function() == function,
    {
        FunctionHandler { method, func: function, arguments: core::marker::PhantomData }
    }
}

impl<F: FunctionRouteHandler<X>, X> RouteHandler for FunctionHandler<F, X> {
    open spec fn accepts(&self, method: HttpMethod) -> bool {
        match self.method() {
            Some(m) => m == method,
            None => true,
        }
    }

    fn handles_method(&self, method: HttpMethod) -> (b: bool) {
        match self.method {
            Some(m) => m == method,
            None => true,
        }
    }

    open spec fn answers(&self, request: HttpRequest, response: HttpResponse) -> bool {
        self.function().responds(request, response)
    }

    fn handle(&self, request: HttpRequest) -> (response: HttpResponse) {
        proof {
            use_type_invariant(self);
        }
        self.func.handle_request(request)
    }
}

impl<F: Fn() -> R, R: IntoResponse> FunctionRouteHandler<()> for F {
    open spec fn ready(&self) -> bool {
        call_requires(*self, ())
    }

    open spec fn responds(&self, request: HttpRequest, response: HttpResponse) -> bool {
        exists|out: R| #[trigger] call_ensures(*self, (), out) && response@ == out.response()
    }

    fn handle_request(&self, request: HttpRequest) -> (response: HttpResponse) {
        dispatch0(self, request)
    }
}

impl<F: Fn(E1) -> R, R: IntoResponse, E1: FromRequest> FunctionRouteHandler<(E1,)> for F {
    open spec fn ready(&self) -> bool {
        forall|a: E1| call_requires(*self, (a,))
    }

    open spec fn responds(&self, request: HttpRequest, response: HttpResponse) -> bool {
        exists|taken: Result<E1, ExtractorError>| #[trigger]
            E1::extracts(0, request, taken) && match taken {
                Err(e) => response@ == failure_response(e),
                Ok(a) => exists|out: R| #[trigger]
                    call_ensures(*self, (a,), out) && response@ == out.response(),
            }
    }

    fn handle_request(&self, request: HttpRequest) -> (response: HttpResponse) {
        dispatch1(self, request)
    }
}

impl<F: Fn(E1, E2) -> R, R: IntoResponse, E1: FromRequest, E2: FromRequest> FunctionRouteHandler<
    (E1, E2),
> for F {
    open spec fn ready(&self) -> bool {
        forall|a: E1, b: E2| call_requires(*self, (a, b))
    }

    open spec fn responds(&self, request: HttpRequest, response: HttpResponse) -> bool {
        exists|taken: Result<(E1, E2), ExtractorError>| #[trigger]
            extracts_two::<E1, E2>(request, taken) && match taken {
                Err(e) => response@ == failure_response(e),
                Ok(both) => exists|out: R| #[trigger]
                    call_ensures(*self, both, out) && response@ == out.response(),
            }
    }

    fn handle_request(&self, request: HttpRequest) -> (response: HttpResponse) {
        dispatch2(self, request)
    }
}

impl<
    F: Fn(E1, E2, E3) -> R,
    R: IntoResponse,
    E1: FromRequest,
    E2: FromRequest,
    E3: FromRequest,
> FunctionRouteHandler<(E1, E2, E3)> for F {
    open spec fn ready(&self) -> bool {
        forall|a: E1, b: E2, c: E3| call_requires(*self, (a, b, c))
    }

    open spec fn responds(&self, request: HttpRequest, response: HttpResponse) -> bool {
        exists|taken: Result<(E1, E2, E3), ExtractorError>| #[trigger]
            extracts_three::<E1, E2, E3>(request, taken) && match taken {
                Err(e) => response@ == failure_response(e),
                Ok(all) => exists|out: R| #[trigger]
                    call_ensures(*self, all, out) && response@ == out.response(),
            }
    }

    fn handle_request(&self, request: HttpRequest) -> (response: HttpResponse) {
        dispatch3(self, request)
    }
}

/// Where the first of two arguments cannot be taken, its failure is the
/// result, whatever taking the second would have given.
pub proof fn lemma_first_failure_wins<E1: FromRequest, E2: FromRequest>(
    request: HttpRequest,
    result: Result<(E1, E2), ExtractorError>,
)
    requires
        extracts_two::<E1, E2>(request, result),
        forall|first: Result<E1, ExtractorError>| #[trigger] E1::extracts(0, request, first) ==> first is Err,
    ensures
        result is Err,
        E1::extracts(0, request, Err::<E1, ExtractorError>(result->Err_0)),
{
    let first = choose|first: Result<E1, ExtractorError>| #[trigger]
        E1::extracts(0, request, first) && match first {
            Err(e) => result == Err::<(E1, E2), ExtractorError>(e),
            Ok(a) => exists|second: Result<E2, ExtractorError>| #[trigger]
                E2::extracts(1, request, second) && result == match second {
                    Err(e) => Err::<(E1, E2), ExtractorError>(e),
                    Ok(b) => Ok((a, b)),
                },
        };
    assert(first is Err);
    assert(first == Err::<E1, ExtractorError>(result->Err_0));
}

} // verus!
