//! Status codes of a response, with their numbers and their classes.

use vstd::prelude::*;

verus! {

/// The status codes a response can carry.
#[derive(Debug, PartialEq, Eq, PartialOrd, Ord, Hash, Clone, Copy, Structural)]
pub enum HttpStatusCode {
    Continue,
    SwitchingProtocols,
    Processing,
    EarlyHints,
    OK,
    Created,
    Accepted,
    NonAuthoritativeInformation,
    NoContent,
    ResetContent,
    PartialContent,
    MultiStatus,
    AlreadyReported,
    ImUsed,
    MultipleChoices,
    MovedPermanently,
    Found,
    SeeOther,
    NotModified,
    UseProxy,
    SwitchProxy,
    TemporaryRedirect,
    PermanentRedirect,
    BadRequest,
    Unauthorized,
    PaymentRequired,
    Forbidden,
    NotFound,
    MethodNotAllowed,
    NotAcceptable,
    ProxyAuthenticationRequired,
    RequestTimeout,
    Conflict,
    Gone,
    LengthRequired,
    PreconditionFailed,
    PayloadTooLarge,
    UriTooLong,
    UnsupportedMediaType,
    RangeNotSatisfiable,
    ExpectationFailed,
    ImATeapot,
    MisdirectedRequest,
    UnprocessableEntity,
    Locked,
    FailedDependency,
    TooEarly,
    UpgradeRequired,
    PreconditionRequired,
    TooManyRequests,
    RequestHeaderFieldsTooLarge,
    UnavailableForLegalReasons,
    InternalServerError,
    NotImplemented,
    BadGateway,
    ServiceUnavailable,
    GatewayTimeout,
    HttpVersionNotSupported,
    VariantAlsoNegotiates,
    InsufficientStorage,
    LoopDetected,
    NotExtended,
    NetworkAuthenticationRequired,
}

impl HttpStatusCode {
    /// The number that stands for this status on the wire.
    pub open spec fn spec_code(&self) -> u16 {
        match *self {
            HttpStatusCode::Continue => 100,
            HttpStatusCode::SwitchingProtocols => 101,
            HttpStatusCode::Processing => 102,
            HttpStatusCode::EarlyHints => 103,
            HttpStatusCode::OK => 200,
            HttpStatusCode::Created => 201,
            HttpStatusCode::Accepted => 202,
            HttpStatusCode::NonAuthoritativeInformation => 203,
            HttpStatusCode::NoContent => 204,
            HttpStatusCode::ResetContent => 205,
            HttpStatusCode::PartialContent => 206,
            HttpStatusCode::MultiStatus => 207,
            HttpStatusCode::AlreadyReported => 208,
            HttpStatusCode::ImUsed => 226,
            HttpStatusCode::MultipleChoices => 300,
            HttpStatusCode::MovedPermanently => 301,
            HttpStatusCode::Found => 302,
            HttpStatusCode::SeeOther => 303,
            HttpStatusCode::NotModified => 304,
            HttpStatusCode::UseProxy => 305,
            HttpStatusCode::SwitchProxy => 306,
            HttpStatusCode::TemporaryRedirect => 307,
            HttpStatusCode::PermanentRedirect => 308,
            HttpStatusCode::BadRequest => 400,
            HttpStatusCode::Unauthorized => 401,
            HttpStatusCode::PaymentRequired => 402,
            HttpStatusCode::Forbidden => 403,
            HttpStatusCode::NotFound => 404,
            HttpStatusCode::MethodNotAllowed => 405,
            HttpStatusCode::NotAcceptable => 406,
            HttpStatusCode::ProxyAuthenticationRequired => 407,
            HttpStatusCode::RequestTimeout => 408,
            HttpStatusCode::Conflict => 409,
            HttpStatusCode::Gone => 410,
            HttpStatusCode::LengthRequired => 411,
            HttpStatusCode::PreconditionFailed => 412,
            HttpStatusCode::PayloadTooLarge => 413,
            HttpStatusCode::UriTooLong => 414,
            HttpStatusCode::UnsupportedMediaType => 415,
            HttpStatusCode::RangeNotSatisfiable => 416,
            HttpStatusCode::ExpectationFailed => 417,
            HttpStatusCode::ImATeapot => 418,
            HttpStatusCode::MisdirectedRequest => 421,
            HttpStatusCode::UnprocessableEntity => 422,
            HttpStatusCode::Locked => 423,
            HttpStatusCode::FailedDependency => 424,
            HttpStatusCode::TooEarly => 425,
            HttpStatusCode::UpgradeRequired => 426,
            HttpStatusCode::PreconditionRequired => 428,
            HttpStatusCode::TooManyRequests => 429,
            HttpStatusCode::RequestHeaderFieldsTooLarge => 431,
            HttpStatusCode::UnavailableForLegalReasons => 451,
            HttpStatusCode::InternalServerError => 500,
            HttpStatusCode::NotImplemented => 501,
            HttpStatusCode::BadGateway => 502,
            HttpStatusCode::ServiceUnavailable => 503,
            HttpStatusCode::GatewayTimeout => 504,
            HttpStatusCode::HttpVersionNotSupported => 505,
            HttpStatusCode::VariantAlsoNegotiates => 506,
            HttpStatusCode::InsufficientStorage => 507,
            HttpStatusCode::LoopDetected => 508,
            HttpStatusCode::NotExtended => 510,
            HttpStatusCode::NetworkAuthenticationRequired => 511,
        }
    }

    /// The status that a number stands for, if it stands for one.
    pub open spec fn spec_from_code(code: u16) -> Option<HttpStatusCode> {
        if code == 100 {
            Some(HttpStatusCode::Continue)
        } else if code == 101 {
            Some(HttpStatusCode::SwitchingProtocols)
        } else if code == 102 {
            Some(HttpStatusCode::Processing)
        } else if code == 103 {
            Some(HttpStatusCode::EarlyHints)
        } else if code == 200 {
            Some(HttpStatusCode::OK)
        } else if code == 201 {
            Some(HttpStatusCode::Created)
        } else if code == 202 {
            Some(HttpStatusCode::Accepted)
        } else if code == 203 {
            Some(HttpStatusCode::NonAuthoritativeInformation)
        } else if code == 204 {
            Some(HttpStatusCode::NoContent)
        } else if code == 205 {
            Some(HttpStatusCode::ResetContent)
        } else if code == 206 {
            Some(HttpStatusCode::PartialContent)
        } else if code == 207 {
            Some(HttpStatusCode::MultiStatus)
        } else if code == 208 {
            Some(HttpStatusCode::AlreadyReported)
        } else if code == 226 {
            Some(HttpStatusCode::ImUsed)
        } else if code == 300 {
            Some(HttpStatusCode::MultipleChoices)
        } else if code == 301 {
            Some(HttpStatusCode::MovedPermanently)
        } else if code == 302 {
            Some(HttpStatusCode::Found)
        } else if code == 303 {
            Some(HttpStatusCode::SeeOther)
        } else if code == 304 {
            Some(HttpStatusCode::NotModified)
        } else if code == 305 {
            Some(HttpStatusCode::UseProxy)
        } else if code == 306 {
            Some(HttpStatusCode::SwitchProxy)
        } else if code == 307 {
            Some(HttpStatusCode::TemporaryRedirect)
        } else if code == 308 {
            Some(HttpStatusCode::PermanentRedirect)
        } else if code == 400 {
            Some(HttpStatusCode::BadRequest)
        } else if code == 401 {
            Some(HttpStatusCode::Unauthorized)
        } else if code == 402 {
            Some(HttpStatusCode::PaymentRequired)
        } else if code == 403 {
            Some(HttpStatusCode::Forbidden)
        } else if code == 404 {
            Some(HttpStatusCode::NotFound)
        } else if code == 405 {
            Some(HttpStatusCode::MethodNotAllowed)
        } else if code == 406 {
            Some(HttpStatusCode::NotAcceptable)
        } else if code == 407 {
            Some(HttpStatusCode::ProxyAuthenticationRequired)
        } else if code == 408 {
            Some(HttpStatusCode::RequestTimeout)
        } else if code == 409 {
            Some(HttpStatusCode::Conflict)
        } else if code == 410 {
            Some(HttpStatusCode::Gone)
        } else if code == 411 {
            Some(HttpStatusCode::LengthRequired)
        } else if code == 412 {
            Some(HttpStatusCode::PreconditionFailed)
        } else if code == 413 {
            Some(HttpStatusCode::PayloadTooLarge)
        } else if code == 414 {
            Some(HttpStatusCode::UriTooLong)
        } else if code == 415 {
            Some(HttpStatusCode::UnsupportedMediaType)
        } else if code == 416 {
            Some(HttpStatusCode::RangeNotSatisfiable)
        } else if code == 417 {
            Some(HttpStatusCode::ExpectationFailed)
        } else if code == 418 {
            Some(HttpStatusCode::ImATeapot)
        } else if code == 421 {
            Some(HttpStatusCode::MisdirectedRequest)
        } else if code == 422 {
            Some(HttpStatusCode::UnprocessableEntity)
        } else if code == 423 {
            Some(HttpStatusCode::Locked)
        } else if code == 424 {
            Some(HttpStatusCode::FailedDependency)
        } else if code == 425 {
            Some(HttpStatusCode::TooEarly)
        } else if code == 426 {
            Some(HttpStatusCode::UpgradeRequired)
        } else if code == 428 {
            Some(HttpStatusCode::PreconditionRequired)
        } else if code == 429 {
            Some(HttpStatusCode::TooManyRequests)
        } else if code == 431 {
            Some(HttpStatusCode::RequestHeaderFieldsTooLarge)
        } else if code == 451 {
            Some(HttpStatusCode::UnavailableForLegalReasons)
        } else if code == 500 {
            Some(HttpStatusCode::InternalServerError)
        } else if code == 501 {
            Some(HttpStatusCode::NotImplemented)
        } else if code == 502 {
            Some(HttpStatusCode::BadGateway)
        } else if code == 503 {
            Some(HttpStatusCode::ServiceUnavailable)
        } else if code == 504 {
            Some(HttpStatusCode::GatewayTimeout)
        } else if code == 505 {
            Some(HttpStatusCode::HttpVersionNotSupported)
        } else if code == 506 {
            Some(HttpStatusCode::VariantAlsoNegotiates)
        } else if code == 507 {
            Some(HttpStatusCode::InsufficientStorage)
        } else if code == 508 {
            Some(HttpStatusCode::LoopDetected)
        } else if code == 510 {
            Some(HttpStatusCode::NotExtended)
        } else if code == 511 {
            Some(HttpStatusCode::NetworkAuthenticationRequired)
        } else {
            None
        }
    }

    #[verifier::when_used_as_spec(spec_code)]
    pub fn code(&self) -> (code: u16)
        ensures
            code == self.spec_code(),
            100 <= code < 600,
    {
        match self {
            HttpStatusCode::Continue => 100,
            HttpStatusCode::SwitchingProtocols => 101,
            HttpStatusCode::Processing => 102,
            HttpStatusCode::EarlyHints => 103,
            HttpStatusCode::OK => 200,
            HttpStatusCode::Created => 201,
            HttpStatusCode::Accepted => 202,
            HttpStatusCode::NonAuthoritativeInformation => 203,
            HttpStatusCode::NoContent => 204,
            HttpStatusCode::ResetContent => 205,
            HttpStatusCode::PartialContent => 206,
            HttpStatusCode::MultiStatus => 207,
            HttpStatusCode::AlreadyReported => 208,
            HttpStatusCode::ImUsed => 226,
            HttpStatusCode::MultipleChoices => 300,
            HttpStatusCode::MovedPermanently => 301,
            HttpStatusCode::Found => 302,
            HttpStatusCode::SeeOther => 303,
            HttpStatusCode::NotModified => 304,
            HttpStatusCode::UseProxy => 305,
            HttpStatusCode::SwitchProxy => 306,
            HttpStatusCode::TemporaryRedirect => 307,
            HttpStatusCode::PermanentRedirect => 308,
            HttpStatusCode::BadRequest => 400,
            HttpStatusCode::Unauthorized => 401,
            HttpStatusCode::PaymentRequired => 402,
            HttpStatusCode::Forbidden => 403,
            HttpStatusCode::NotFound => 404,
            HttpStatusCode::MethodNotAllowed => 405,
            HttpStatusCode::NotAcceptable => 406,
            HttpStatusCode::ProxyAuthenticationRequired => 407,
            HttpStatusCode::RequestTimeout => 408,
            HttpStatusCode::Conflict => 409,
            HttpStatusCode::Gone => 410,
            HttpStatusCode::LengthRequired => 411,
            HttpStatusCode::PreconditionFailed => 412,
            HttpStatusCode::PayloadTooLarge => 413,
            HttpStatusCode::UriTooLong => 414,
            HttpStatusCode::UnsupportedMediaType => 415,
            HttpStatusCode::RangeNotSatisfiable => 416,
            HttpStatusCode::ExpectationFailed => 417,
            HttpStatusCode::ImATeapot => 418,
            HttpStatusCode::MisdirectedRequest => 421,
            HttpStatusCode::UnprocessableEntity => 422,
            HttpStatusCode::Locked => 423,
            HttpStatusCode::FailedDependency => 424,
            HttpStatusCode::TooEarly => 425,
            HttpStatusCode::UpgradeRequired => 426,
            HttpStatusCode::PreconditionRequired => 428,
            HttpStatusCode::TooManyRequests => 429,
            HttpStatusCode::RequestHeaderFieldsTooLarge => 431,
            HttpStatusCode::UnavailableForLegalReasons => 451,
            HttpStatusCode::InternalServerError => 500,
            HttpStatusCode::NotImplemented => 501,
            HttpStatusCode::BadGateway => 502,
            HttpStatusCode::ServiceUnavailable => 503,
            HttpStatusCode::GatewayTimeout => 504,
            HttpStatusCode::HttpVersionNotSupported => 505,
            HttpStatusCode::VariantAlsoNegotiates => 506,
            HttpStatusCode::InsufficientStorage => 507,
            HttpStatusCode::LoopDetected => 508,
            HttpStatusCode::NotExtended => 510,
            HttpStatusCode::NetworkAuthenticationRequired => 511,
        }
    }

    /// Looks a status up by its number.
    pub fn from_code(code: u16) -> (status: Option<HttpStatusCode>)
        ensures
            status == Self::spec_from_code(code),
            status matches Some(s) ==> s.spec_code() == code,
            status is None ==> forall|s: HttpStatusCode| s.spec_code() != code,
    {
        match code {
            100 => Some(HttpStatusCode::Continue),
            101 => Some(HttpStatusCode::SwitchingProtocols),
            102 => Some(HttpStatusCode::Processing),
            103 => Some(HttpStatusCode::EarlyHints),
            200 => Some(HttpStatusCode::OK),
            201 => Some(HttpStatusCode::Created),
            202 => Some(HttpStatusCode::Accepted),
            203 => Some(HttpStatusCode::NonAuthoritativeInformation),
            204 => Some(HttpStatusCode::NoContent),
            205 => Some(HttpStatusCode::ResetContent),
            206 => Some(HttpStatusCode::PartialContent),
            207 => Some(HttpStatusCode::MultiStatus),
            208 => Some(HttpStatusCode::AlreadyReported),
            226 => Some(HttpStatusCode::ImUsed),
            300 => Some(HttpStatusCode::MultipleChoices),
            301 => Some(HttpStatusCode::MovedPermanently),
            302 => Some(HttpStatusCode::Found),
            303 => Some(HttpStatusCode::SeeOther),
            304 => Some(HttpStatusCode::NotModified),
            305 => Some(HttpStatusCode::UseProxy),
            306 => Some(HttpStatusCode::SwitchProxy),
            307 => Some(HttpStatusCode::TemporaryRedirect),
            308 => Some(HttpStatusCode::PermanentRedirect),
            400 => Some(HttpStatusCode::BadRequest),
            401 => Some(HttpStatusCode::Unauthorized),
            402 => Some(HttpStatusCode::PaymentRequired),
            403 => Some(HttpStatusCode::Forbidden),
            404 => Some(HttpStatusCode::NotFound),
            405 => Some(HttpStatusCode::MethodNotAllowed),
            406 => Some(HttpStatusCode::NotAcceptable),
            407 => Some(HttpStatusCode::ProxyAuthenticationRequired),
            408 => Some(HttpStatusCode::RequestTimeout),
            409 => Some(HttpStatusCode::Conflict),
            410 => Some(HttpStatusCode::Gone),
            411 => Some(HttpStatusCode::LengthRequired),
            412 => Some(HttpStatusCode::PreconditionFailed),
            413 => Some(HttpStatusCode::PayloadTooLarge),
            414 => Some(HttpStatusCode::UriTooLong),
            415 => Some(HttpStatusCode::UnsupportedMediaType),
            416 => Some(HttpStatusCode::RangeNotSatisfiable),
            417 => Some(HttpStatusCode::ExpectationFailed),
            418 => Some(HttpStatusCode::ImATeapot),
            421 => Some(HttpStatusCode::MisdirectedRequest),
            422 => Some(HttpStatusCode::UnprocessableEntity),
            423 => Some(HttpStatusCode::Locked),
            424 => Some(HttpStatusCode::FailedDependency),
            425 => Some(HttpStatusCode::TooEarly),
            426 => Some(HttpStatusCode::UpgradeRequired),
            428 => Some(HttpStatusCode::PreconditionRequired),
            429 => Some(HttpStatusCode::TooManyRequests),
            431 => Some(HttpStatusCode::RequestHeaderFieldsTooLarge),
            451 => Some(HttpStatusCode::UnavailableForLegalReasons),
            500 => Some(HttpStatusCode::InternalServerError),
            501 => Some(HttpStatusCode::NotImplemented),
            502 => Some(HttpStatusCode::BadGateway),
            503 => Some(HttpStatusCode::ServiceUnavailable),
            504 => Some(HttpStatusCode::GatewayTimeout),
            505 => Some(HttpStatusCode::HttpVersionNotSupported),
            506 => Some(HttpStatusCode::VariantAlsoNegotiates),
            507 => Some(HttpStatusCode::InsufficientStorage),
            508 => Some(HttpStatusCode::LoopDetected),
            510 => Some(HttpStatusCode::NotExtended),
            511 => Some(HttpStatusCode::NetworkAuthenticationRequired),
            _ => None,
        }
    }

    pub fn is_informational(&self) -> (b: bool)
        ensures
            b <==> 100 <= self.spec_code() < 200,
    {
        let code: u16 = self.code();
        100 <= code && code < 200
    }

    pub fn is_success(&self) -> (b: bool)
        ensures
            b <==> 200 <= self.spec_code() < 300,
    {
        let code: u16 = self.code();
        200 <= code && code < 300
    }

    pub fn is_redirection(&self) -> (b: bool)
        ensures
            b <==> 300 <= self.spec_code() < 400,
    {
        let code: u16 = self.code();
        300 <= code && code < 400
    }

    pub fn is_client_error(&self) -> (b: bool)
        ensures
            b <==> 400 <= self.spec_code() < 500,
    {
        let code: u16 = self.code();
        400 <= code && code < 500
    }

    pub fn is_server_error(&self) -> (b: bool)
        ensures
            b <==> 500 <= self.spec_code() < 600,
    {
        let code: u16 = self.code();
        500 <= code && code < 600
    }
}

/// Every status code falls in exactly one of the five classes: its number
/// lies in exactly one of the bands from 100 to 599.
pub proof fn lemma_classes_partition(status: HttpStatusCode)
    ensures
        ({
            let code = status.spec_code();
            let informational: int = if 100 <= code < 200 { 1 } else { 0 };
            let success: int = if 200 <= code < 300 { 1 } else { 0 };
            let redirection: int = if 300 <= code < 400 { 1 } else { 0 };
            let client_error: int = if 400 <= code < 500 { 1 } else { 0 };
            let server_error: int = if 500 <= code < 600 { 1 } else { 0 };
            informational + success + redirection + client_error + server_error == 1
        }),
{
}

/// A status code is found again by its number.
pub proof fn lemma_from_code_inverts_code(status: HttpStatusCode)
    ensures
        HttpStatusCode::spec_from_code(status.spec_code()) == Some(status),
{
}

} // verus!
