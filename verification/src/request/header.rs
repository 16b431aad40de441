//! Header names: the well-known ones, the pseudo-headers of HTTP/2, and an
//! escape for every other name.

use crate::list_map::MapKey;
use crate::text::{lowercase, same_text, to_lowercase};
use vstd::prelude::*;
use vstd::std_specs::cmp::PartialEqSpecImpl;

verus! {

/// The name of a header.
#[derive(Debug, Hash)]
pub enum HttpHeader {
    AIM,
    Accept,
    AcceptCharset,
    AcceptDatetime,
    AcceptEncoding,
    AcceptLanguage,
    AccessControlRequestMethod,
    Authorization,
    CacheControl,
    Connection,
    ContentEncoding,
    ContentLength,
    ContentMd5,
    ContentType,
    Cookie,
    Date,
    Expect,
    Forwarded,
    From,
    Host,
    Http2Settings,
    IfMatch,
    IfModifiedSince,
    IfNoneMatch,
    IfRange,
    IfUnmodifiedSince,
    Location,
    MaxForwards,
    Origin,
    Pragma,
    Prefer,
    ProxyAuthorization,
    Range,
    Referer,
    Server,
    Te,
    Trailer,
    TransferEncoding,
    UserAgent,
    Upgrade,
    Via,
    Warning,
    Custom(String),
    PseudoScheme,
    PseudoMethod,
    PseudoAuthority,
    PseudoPath,
    PseudoStatus,
    PseudoProtocol,
}

/// What a header name is, as a mathematical value: the view of `HttpHeader`.
pub enum HeaderName {
    AIM,
    Accept,
    AcceptCharset,
    AcceptDatetime,
    AcceptEncoding,
    AcceptLanguage,
    AccessControlRequestMethod,
    Authorization,
    CacheControl,
    Connection,
    ContentEncoding,
    ContentLength,
    ContentMd5,
    ContentType,
    Cookie,
    Date,
    Expect,
    Forwarded,
    From,
    Host,
    Http2Settings,
    IfMatch,
    IfModifiedSince,
    IfNoneMatch,
    IfRange,
    IfUnmodifiedSince,
    Location,
    MaxForwards,
    Origin,
    Pragma,
    Prefer,
    ProxyAuthorization,
    Range,
    Referer,
    Server,
    Te,
    Trailer,
    TransferEncoding,
    UserAgent,
    Upgrade,
    Via,
    Warning,
    Custom(Seq<char>),
    PseudoScheme,
    PseudoMethod,
    PseudoAuthority,
    PseudoPath,
    PseudoStatus,
    PseudoProtocol,
}

impl View for HttpHeader {
    type V = HeaderName;

    open spec fn view(&self) -> HeaderName {
        match *self {
            HttpHeader::AIM => HeaderName::AIM,
            HttpHeader::Accept => HeaderName::Accept,
            HttpHeader::AcceptCharset => HeaderName::AcceptCharset,
            HttpHeader::AcceptDatetime => HeaderName::AcceptDatetime,
            HttpHeader::AcceptEncoding => HeaderName::AcceptEncoding,
            HttpHeader::AcceptLanguage => HeaderName::AcceptLanguage,
            HttpHeader::AccessControlRequestMethod => HeaderName::AccessControlRequestMethod,
            HttpHeader::Authorization => HeaderName::Authorization,
            HttpHeader::CacheControl => HeaderName::CacheControl,
            HttpHeader::Connection => HeaderName::Connection,
            HttpHeader::ContentEncoding => HeaderName::ContentEncoding,
            HttpHeader::ContentLength => HeaderName::ContentLength,
            HttpHeader::ContentMd5 => HeaderName::ContentMd5,
            HttpHeader::ContentType => HeaderName::ContentType,
            HttpHeader::Cookie => HeaderName::Cookie,
            HttpHeader::Date => HeaderName::Date,
            HttpHeader::Expect => HeaderName::Expect,
            HttpHeader::Forwarded => HeaderName::Forwarded,
            HttpHeader::From => HeaderName::From,
            HttpHeader::Host => HeaderName::Host,
            HttpHeader::Http2Settings => HeaderName::Http2Settings,
            HttpHeader::IfMatch => HeaderName::IfMatch,
            HttpHeader::IfModifiedSince => HeaderName::IfModifiedSince,
            HttpHeader::IfNoneMatch => HeaderName::IfNoneMatch,
            HttpHeader::IfRange => HeaderName::IfRange,
            HttpHeader::IfUnmodifiedSince => HeaderName::IfUnmodifiedSince,
            HttpHeader::Location => HeaderName::Location,
            HttpHeader::MaxForwards => HeaderName::MaxForwards,
            HttpHeader::Origin => HeaderName::Origin,
            HttpHeader::Pragma => HeaderName::Pragma,
            HttpHeader::Prefer => HeaderName::Prefer,
            HttpHeader::ProxyAuthorization => HeaderName::ProxyAuthorization,
            HttpHeader::Range => HeaderName::Range,
            HttpHeader::Referer => HeaderName::Referer,
            HttpHeader::Server => HeaderName::Server,
            HttpHeader::Te => HeaderName::Te,
            HttpHeader::Trailer => HeaderName::Trailer,
            HttpHeader::TransferEncoding => HeaderName::TransferEncoding,
            HttpHeader::UserAgent => HeaderName::UserAgent,
            HttpHeader::Upgrade => HeaderName::Upgrade,
            HttpHeader::Via => HeaderName::Via,
            HttpHeader::Warning => HeaderName::Warning,
            HttpHeader::Custom(name) => HeaderName::Custom(name@),
            HttpHeader::PseudoScheme => HeaderName::PseudoScheme,
            HttpHeader::PseudoMethod => HeaderName::PseudoMethod,
            HttpHeader::PseudoAuthority => HeaderName::PseudoAuthority,
            HttpHeader::PseudoPath => HeaderName::PseudoPath,
            HttpHeader::PseudoStatus => HeaderName::PseudoStatus,
            HttpHeader::PseudoProtocol => HeaderName::PseudoProtocol,
        }
    }
}

impl HeaderName {
    /// The name as it is written on the wire.
    pub open spec fn name(self) -> Seq<char> {
        match self {
            HeaderName::AIM => "AIM"@,
            HeaderName::Accept => "Accept"@,
            HeaderName::AcceptCharset => "Accept-Charset"@,
            HeaderName::AcceptDatetime => "Accept-Datetime"@,
            HeaderName::AcceptEncoding => "Accept-Encoding"@,
            HeaderName::AcceptLanguage => "Accept-Language"@,
            HeaderName::AccessControlRequestMethod => "Access-Control-Request-Method"@,
            HeaderName::Authorization => "Authorization"@,
            HeaderName::CacheControl => "Cache-Control"@,
            HeaderName::Connection => "Connection"@,
            HeaderName::ContentEncoding => "Content-Encoding"@,
            HeaderName::ContentLength => "Content-Length"@,
            HeaderName::ContentMd5 => "Content-MD5"@,
            HeaderName::ContentType => "Content-Type"@,
            HeaderName::Cookie => "Cookie"@,
            HeaderName::Date => "Date"@,
            HeaderName::Expect => "Expect"@,
            HeaderName::Forwarded => "Forwarded"@,
            HeaderName::From => "From"@,
            HeaderName::Host => "Host"@,
            HeaderName::Http2Settings => "HTTP2-Settings"@,
            HeaderName::IfMatch => "If-Match"@,
            HeaderName::IfModifiedSince => "If-Modified-Since"@,
            HeaderName::IfNoneMatch => "If-None-Match"@,
            HeaderName::IfRange => "If-Range"@,
            HeaderName::IfUnmodifiedSince => "If-Unmodified-Since"@,
            HeaderName::Location => "Location"@,
            HeaderName::MaxForwards => "Max-Forwards"@,
            HeaderName::Origin => "Origin"@,
            HeaderName::Pragma => "Pragma"@,
            HeaderName::Prefer => "Prefer"@,
            HeaderName::ProxyAuthorization => "Proxy-Authorization"@,
            HeaderName::Range => "Range"@,
            HeaderName::Referer => "Referer"@,
            HeaderName::Server => "Server"@,
            HeaderName::Te => "TE"@,
            HeaderName::Trailer => "Trailer"@,
            HeaderName::TransferEncoding => "Transfer-Encoding"@,
            HeaderName::UserAgent => "User-Agent"@,
            HeaderName::Upgrade => "Upgrade"@,
            HeaderName::Via => "Via"@,
            HeaderName::Warning => "Warning"@,
            HeaderName::PseudoScheme => ":scheme"@,
            HeaderName::PseudoMethod => ":method"@,
            HeaderName::PseudoAuthority => ":authority"@,
            HeaderName::PseudoPath => ":path"@,
            HeaderName::PseudoStatus => ":status"@,
            HeaderName::PseudoProtocol => ":protocol"@,
            HeaderName::Custom(name) => name,
        }
    }

    /// The name in lower case, for the names that are known.
    pub open spec fn lower_name(self) -> Seq<char> {
        match self {
            HeaderName::AIM => "aim"@,
            HeaderName::Accept => "accept"@,
            HeaderName::AcceptCharset => "accept-charset"@,
            HeaderName::AcceptDatetime => "accept-datetime"@,
            HeaderName::AcceptEncoding => "accept-encoding"@,
            HeaderName::AcceptLanguage => "accept-language"@,
            HeaderName::AccessControlRequestMethod => "access-control-request-method"@,
            HeaderName::Authorization => "authorization"@,
            HeaderName::CacheControl => "cache-control"@,
            HeaderName::Connection => "connection"@,
            HeaderName::ContentEncoding => "content-encoding"@,
            HeaderName::ContentLength => "content-length"@,
            HeaderName::ContentMd5 => "content-md5"@,
            HeaderName::ContentType => "content-type"@,
            HeaderName::Cookie => "cookie"@,
            HeaderName::Date => "date"@,
            HeaderName::Expect => "expect"@,
            HeaderName::Forwarded => "forwarded"@,
            HeaderName::From => "from"@,
            HeaderName::Host => "host"@,
            HeaderName::Http2Settings => "http2-settings"@,
            HeaderName::IfMatch => "if-match"@,
            HeaderName::IfModifiedSince => "if-modified-since"@,
            HeaderName::IfNoneMatch => "if-none-match"@,
            HeaderName::IfRange => "if-range"@,
            HeaderName::IfUnmodifiedSince => "if-unmodified-since"@,
            HeaderName::Location => "location"@,
            HeaderName::MaxForwards => "max-forwards"@,
            HeaderName::Origin => "origin"@,
            HeaderName::Pragma => "pragma"@,
            HeaderName::Prefer => "prefer"@,
            HeaderName::ProxyAuthorization => "proxy-authorization"@,
            HeaderName::Range => "range"@,
            HeaderName::Referer => "referer"@,
            HeaderName::Server => "server"@,
            HeaderName::Te => "te"@,
            HeaderName::Trailer => "trailer"@,
            HeaderName::TransferEncoding => "transfer-encoding"@,
            HeaderName::UserAgent => "user-agent"@,
            HeaderName::Upgrade => "upgrade"@,
            HeaderName::Via => "via"@,
            HeaderName::Warning => "warning"@,
            HeaderName::PseudoScheme => ":scheme"@,
            HeaderName::PseudoMethod => ":method"@,
            HeaderName::PseudoAuthority => ":authority"@,
            HeaderName::PseudoPath => ":path"@,
            HeaderName::PseudoStatus => ":status"@,
            HeaderName::PseudoProtocol => ":protocol"@,
            HeaderName::Custom(name) => name,
        }
    }

    /// The header that a lower-cased name stands for. A name that is not
    /// known stands for a custom header that keeps the name as it was given.
    pub open spec fn from_lowercase(lower: Seq<char>, given: Seq<char>) -> HeaderName {
        if lower == "aim"@ {
            HeaderName::AIM
        } else if lower == "accept"@ {
            HeaderName::Accept
        } else if lower == "accept-charset"@ {
            HeaderName::AcceptCharset
        } else if lower == "accept-datetime"@ {
            HeaderName::AcceptDatetime
        } else if lower == "accept-encoding"@ {
            HeaderName::AcceptEncoding
        } else if lower == "accept-language"@ {
            HeaderName::AcceptLanguage
        } else if lower == "access-control-request-method"@ {
            HeaderName::AccessControlRequestMethod
        } else if lower == "authorization"@ {
            HeaderName::Authorization
        } else if lower == "cache-control"@ {
            HeaderName::CacheControl
        } else if lower == "connection"@ {
            HeaderName::Connection
        } else if lower == "content-encoding"@ {
            HeaderName::ContentEncoding
        } else if lower == "content-length"@ {
            HeaderName::ContentLength
        } else if lower == "content-md5"@ {
            HeaderName::ContentMd5
        } else if lower == "content-type"@ {
            HeaderName::ContentType
        } else if lower == "cookie"@ {
            HeaderName::Cookie
        } else if lower == "date"@ {
            HeaderName::Date
        } else if lower == "expect"@ {
            HeaderName::Expect
        } else if lower == "forwarded"@ {
            HeaderName::Forwarded
        } else if lower == "from"@ {
            HeaderName::From
        } else if lower == "host"@ {
            HeaderName::Host
        } else if lower == "http2-settings"@ {
            HeaderName::Http2Settings
        } else if lower == "if-match"@ {
            HeaderName::IfMatch
        } else if lower == "if-modified-since"@ {
            HeaderName::IfModifiedSince
        } else if lower == "if-none-match"@ {
            HeaderName::IfNoneMatch
        } else if lower == "if-range"@ {
            HeaderName::IfRange
        } else if lower == "if-unmodified-since"@ {
            HeaderName::IfUnmodifiedSince
        } else if lower == "location"@ {
            HeaderName::Location
        } else if lower == "max-forwards"@ {
            HeaderName::MaxForwards
        } else if lower == "origin"@ {
            HeaderName::Origin
        } else if lower == "pragma"@ {
            HeaderName::Pragma
        } else if lower == "prefer"@ {
            HeaderName::Prefer
        } else if lower == "proxy-authorization"@ {
            HeaderName::ProxyAuthorization
        } else if lower == "range"@ {
            HeaderName::Range
        } else if lower == "referer"@ {
            HeaderName::Referer
        } else if lower == "server"@ {
            HeaderName::Server
        } else if lower == "te"@ {
            HeaderName::Te
        } else if lower == "trailer"@ {
            HeaderName::Trailer
        } else if lower == "transfer-encoding"@ {
            HeaderName::TransferEncoding
        } else if lower == "user-agent"@ {
            HeaderName::UserAgent
        } else if lower == "upgrade"@ {
            HeaderName::Upgrade
        } else if lower == "via"@ {
            HeaderName::Via
        } else if lower == "warning"@ {
            HeaderName::Warning
        } else if lower == ":scheme"@ {
            HeaderName::PseudoScheme
        } else if lower == ":method"@ {
            HeaderName::PseudoMethod
        } else if lower == ":authority"@ {
            HeaderName::PseudoAuthority
        } else if lower == ":path"@ {
            HeaderName::PseudoPath
        } else if lower == ":status"@ {
            HeaderName::PseudoStatus
        } else if lower == ":protocol"@ {
            HeaderName::PseudoProtocol
        } else {
            HeaderName::Custom(given)
        }
    }

    /// The header that a name stands for, whatever its case.
    pub open spec fn from_name(name: Seq<char>) -> HeaderName {
        Self::from_lowercase(lowercase(name), name)
    }

    /// Whether this is one of the pseudo-headers of HTTP/2.
    pub open spec fn is_pseudo(self) -> bool {
        self is PseudoScheme || self is PseudoMethod || self is PseudoAuthority
            || self is PseudoPath || self is PseudoStatus || self is PseudoProtocol
    }

    /// A number for each kind of name; every custom name has the same.
    pub open spec fn ordinal(self) -> u8 {
        match self {
            HeaderName::AIM => 1,
            HeaderName::Accept => 2,
            HeaderName::AcceptCharset => 3,
            HeaderName::AcceptDatetime => 4,
            HeaderName::AcceptEncoding => 5,
            HeaderName::AcceptLanguage => 6,
            HeaderName::AccessControlRequestMethod => 7,
            HeaderName::Authorization => 8,
            HeaderName::CacheControl => 9,
            HeaderName::Connection => 10,
            HeaderName::ContentEncoding => 11,
            HeaderName::ContentLength => 12,
            HeaderName::ContentMd5 => 13,
            HeaderName::ContentType => 14,
            HeaderName::Cookie => 15,
            HeaderName::Date => 16,
            HeaderName::Expect => 17,
            HeaderName::Forwarded => 18,
            HeaderName::From => 19,
            HeaderName::Host => 20,
            HeaderName::Http2Settings => 21,
            HeaderName::IfMatch => 22,
            HeaderName::IfModifiedSince => 23,
            HeaderName::IfNoneMatch => 24,
            HeaderName::IfRange => 25,
            HeaderName::IfUnmodifiedSince => 26,
            HeaderName::Location => 27,
            HeaderName::MaxForwards => 28,
            HeaderName::Origin => 29,
            HeaderName::Pragma => 30,
            HeaderName::Prefer => 31,
            HeaderName::ProxyAuthorization => 32,
            HeaderName::Range => 33,
            HeaderName::Referer => 34,
            HeaderName::Server => 35,
            HeaderName::Te => 36,
            HeaderName::Trailer => 37,
            HeaderName::TransferEncoding => 38,
            HeaderName::UserAgent => 39,
            HeaderName::Upgrade => 40,
            HeaderName::Via => 41,
            HeaderName::Warning => 42,
            HeaderName::PseudoScheme => 43,
            HeaderName::PseudoMethod => 44,
            HeaderName::PseudoAuthority => 45,
            HeaderName::PseudoPath => 46,
            HeaderName::PseudoStatus => 47,
            HeaderName::PseudoProtocol => 48,
            HeaderName::Custom(_) => 0,
        }
    }
}

impl HttpHeader {
    pub fn name(&self) -> (name: String)
        ensures
            name@ == self@.name(),
    {
        match self {
            HttpHeader::AIM => "AIM".to_owned(),
            HttpHeader::Accept => "Accept".to_owned(),
            HttpHeader::AcceptCharset => "Accept-Charset".to_owned(),
            HttpHeader::AcceptDatetime => "Accept-Datetime".to_owned(),
            HttpHeader::AcceptEncoding => "Accept-Encoding".to_owned(),
            HttpHeader::AcceptLanguage => "Accept-Language".to_owned(),
            HttpHeader::AccessControlRequestMethod => "Access-Control-Request-Method".to_owned(),
            HttpHeader::Authorization => "Authorization".to_owned(),
            HttpHeader::CacheControl => "Cache-Control".to_owned(),
            HttpHeader::Connection => "Connection".to_owned(),
            HttpHeader::ContentEncoding => "Content-Encoding".to_owned(),
            HttpHeader::ContentLength => "Content-Length".to_owned(),
            HttpHeader::ContentMd5 => "Content-MD5".to_owned(),
            HttpHeader::ContentType => "Content-Type".to_owned(),
            HttpHeader::Cookie => "Cookie".to_owned(),
            HttpHeader::Date => "Date".to_owned(),
            HttpHeader::Expect => "Expect".to_owned(),
            HttpHeader::Forwarded => "Forwarded".to_owned(),
            HttpHeader::From => "From".to_owned(),
            HttpHeader::Host => "Host".to_owned(),
            HttpHeader::Http2Settings => "HTTP2-Settings".to_owned(),
            HttpHeader::IfMatch => "If-Match".to_owned(),
            HttpHeader::IfModifiedSince => "If-Modified-Since".to_owned(),
            HttpHeader::IfNoneMatch => "If-None-Match".to_owned(),
            HttpHeader::IfRange => "If-Range".to_owned(),
            HttpHeader::IfUnmodifiedSince => "If-Unmodified-Since".to_owned(),
            HttpHeader::Location => "Location".to_owned(),
            HttpHeader::MaxForwards => "Max-Forwards".to_owned(),
            HttpHeader::Origin => "Origin".to_owned(),
            HttpHeader::Pragma => "Pragma".to_owned(),
            HttpHeader::Prefer => "Prefer".to_owned(),
            HttpHeader::ProxyAuthorization => "Proxy-Authorization".to_owned(),
            HttpHeader::Range => "Range".to_owned(),
            HttpHeader::Referer => "Referer".to_owned(),
            HttpHeader::Server => "Server".to_owned(),
            HttpHeader::Te => "TE".to_owned(),
            HttpHeader::Trailer => "Trailer".to_owned(),
            HttpHeader::TransferEncoding => "Transfer-Encoding".to_owned(),
            HttpHeader::UserAgent => "User-Agent".to_owned(),
            HttpHeader::Upgrade => "Upgrade".to_owned(),
            HttpHeader::Via => "Via".to_owned(),
            HttpHeader::Warning => "Warning".to_owned(),
            HttpHeader::PseudoScheme => ":scheme".to_owned(),
            HttpHeader::PseudoMethod => ":method".to_owned(),
            HttpHeader::PseudoAuthority => ":authority".to_owned(),
            HttpHeader::PseudoPath => ":path".to_owned(),
            HttpHeader::PseudoStatus => ":status".to_owned(),
            HttpHeader::PseudoProtocol => ":protocol".to_owned(),
            HttpHeader::Custom(name) => name.clone(),
        }
    }

    /// The header for a name that is already in lower case; `given` is the
    /// name as it was written, which a custom header keeps.
    pub fn from_lowercase(lower: &str, given: &str) -> (header: HttpHeader)
        ensures
            header@ == HeaderName::from_lowercase(lower@, given@),
    {
        if same_text(lower, "aim") {
            HttpHeader::AIM
        } else if same_text(lower, "accept") {
            HttpHeader::Accept
        } else if same_text(lower, "accept-charset") {
            HttpHeader::AcceptCharset
        } else if same_text(lower, "accept-datetime") {
            HttpHeader::AcceptDatetime
        } else if same_text(lower, "accept-encoding") {
            HttpHeader::AcceptEncoding
        } else if same_text(lower, "accept-language") {
            HttpHeader::AcceptLanguage
        } else if same_text(lower, "access-control-request-method") {
            HttpHeader::AccessControlRequestMethod
        } else if same_text(lower, "authorization") {
            HttpHeader::Authorization
        } else if same_text(lower, "cache-control") {
            HttpHeader::CacheControl
        } else if same_text(lower, "connection") {
            HttpHeader::Connection
        } else if same_text(lower, "content-encoding") {
            HttpHeader::ContentEncoding
        } else if same_text(lower, "content-length") {
            HttpHeader::ContentLength
        } else if same_text(lower, "content-md5") {
            HttpHeader::ContentMd5
        } else if same_text(lower, "content-type") {
            HttpHeader::ContentType
        } else if same_text(lower, "cookie") {
            HttpHeader::Cookie
        } else if same_text(lower, "date") {
            HttpHeader::Date
        } else if same_text(lower, "expect") {
            HttpHeader::Expect
        } else if same_text(lower, "forwarded") {
            HttpHeader::Forwarded
        } else if same_text(lower, "from") {
            HttpHeader::From
        } else if same_text(lower, "host") {
            HttpHeader::Host
        } else if same_text(lower, "http2-settings") {
            HttpHeader::Http2Settings
        } else if same_text(lower, "if-match") {
            HttpHeader::IfMatch
        } else if same_text(lower, "if-modified-since") {
            HttpHeader::IfModifiedSince
        } else if same_text(lower, "if-none-match") {
            HttpHeader::IfNoneMatch
        } else if same_text(lower, "if-range") {
            HttpHeader::IfRange
        } else if same_text(lower, "if-unmodified-since") {
            HttpHeader::IfUnmodifiedSince
        } else if same_text(lower, "location") {
            HttpHeader::Location
        } else if same_text(lower, "max-forwards") {
            HttpHeader::MaxForwards
        } else if same_text(lower, "origin") {
            HttpHeader::Origin
        } else if same_text(lower, "pragma") {
            HttpHeader::Pragma
        } else if same_text(lower, "prefer") {
            HttpHeader::Prefer
        } else if same_text(lower, "proxy-authorization") {
            HttpHeader::ProxyAuthorization
        } else if same_text(lower, "range") {
            HttpHeader::Range
        } else if same_text(lower, "referer") {
            HttpHeader::Referer
        } else if same_text(lower, "server") {
            HttpHeader::Server
        } else if same_text(lower, "te") {
            HttpHeader::Te
        } else if same_text(lower, "trailer") {
            HttpHeader::Trailer
        } else if same_text(lower, "transfer-encoding") {
            HttpHeader::TransferEncoding
        } else if same_text(lower, "user-agent") {
            HttpHeader::UserAgent
        } else if same_text(lower, "upgrade") {
            HttpHeader::Upgrade
        } else if same_text(lower, "via") {
            HttpHeader::Via
        } else if same_text(lower, "warning") {
            HttpHeader::Warning
        } else if same_text(lower, ":scheme") {
            HttpHeader::PseudoScheme
        } else if same_text(lower, ":method") {
            HttpHeader::PseudoMethod
        } else if same_text(lower, ":authority") {
            HttpHeader::PseudoAuthority
        } else if same_text(lower, ":path") {
            HttpHeader::PseudoPath
        } else if same_text(lower, ":status") {
            HttpHeader::PseudoStatus
        } else if same_text(lower, ":protocol") {
            HttpHeader::PseudoProtocol
        } else {
            HttpHeader::Custom(given.to_owned())
        }
    }

    /// The header that a name stands for. Case does not matter for the known
    /// names; any other name gives a custom header with the name as given.
    pub fn from_name(name: &str) -> (header: HttpHeader)
        ensures
            header@ == HeaderName::from_name(name@),
    {
        let lower = to_lowercase(name);
        Self::from_lowercase(lower.as_str(), name)
    }

    pub fn is_pseudo(&self) -> (b: bool)
        ensures
            b == self@.is_pseudo(),
    {
        match self {
            HttpHeader::PseudoScheme
            | HttpHeader::PseudoMethod
            | HttpHeader::PseudoAuthority
            | HttpHeader::PseudoPath
            | HttpHeader::PseudoStatus
            | HttpHeader::PseudoProtocol => true,
            _ => false,
        }
    }

    fn ordinal(&self) -> (n: u8)
        ensures
            n == self@.ordinal(),
    {
        match self {
            HttpHeader::AIM => 1,
            HttpHeader::Accept => 2,
            HttpHeader::AcceptCharset => 3,
            HttpHeader::AcceptDatetime => 4,
            HttpHeader::AcceptEncoding => 5,
            HttpHeader::AcceptLanguage => 6,
            HttpHeader::AccessControlRequestMethod => 7,
            HttpHeader::Authorization => 8,
            HttpHeader::CacheControl => 9,
            HttpHeader::Connection => 10,
            HttpHeader::ContentEncoding => 11,
            HttpHeader::ContentLength => 12,
            HttpHeader::ContentMd5 => 13,
            HttpHeader::ContentType => 14,
            HttpHeader::Cookie => 15,
            HttpHeader::Date => 16,
            HttpHeader::Expect => 17,
            HttpHeader::Forwarded => 18,
            HttpHeader::From => 19,
            HttpHeader::Host => 20,
            HttpHeader::Http2Settings => 21,
            HttpHeader::IfMatch => 22,
            HttpHeader::IfModifiedSince => 23,
            HttpHeader::IfNoneMatch => 24,
            HttpHeader::IfRange => 25,
            HttpHeader::IfUnmodifiedSince => 26,
            HttpHeader::Location => 27,
            HttpHeader::MaxForwards => 28,
            HttpHeader::Origin => 29,
            HttpHeader::Pragma => 30,
            HttpHeader::Prefer => 31,
            HttpHeader::ProxyAuthorization => 32,
            HttpHeader::Range => 33,
            HttpHeader::Referer => 34,
            HttpHeader::Server => 35,
            HttpHeader::Te => 36,
            HttpHeader::Trailer => 37,
            HttpHeader::TransferEncoding => 38,
            HttpHeader::UserAgent => 39,
            HttpHeader::Upgrade => 40,
            HttpHeader::Via => 41,
            HttpHeader::Warning => 42,
            HttpHeader::PseudoScheme => 43,
            HttpHeader::PseudoMethod => 44,
            HttpHeader::PseudoAuthority => 45,
            HttpHeader::PseudoPath => 46,
            HttpHeader::PseudoStatus => 47,
            HttpHeader::PseudoProtocol => 48,
            HttpHeader::Custom(_) => 0,
        }
    }

    fn from_ordinal(n: u8) -> (header: HttpHeader)
        requires
            1 <= n <= 48,
        ensures
            header@.ordinal() == n,
            !(header@ is Custom),
    {
        match n {
            1 => HttpHeader::AIM,
            2 => HttpHeader::Accept,
            3 => HttpHeader::AcceptCharset,
            4 => HttpHeader::AcceptDatetime,
            5 => HttpHeader::AcceptEncoding,
            6 => HttpHeader::AcceptLanguage,
            7 => HttpHeader::AccessControlRequestMethod,
            8 => HttpHeader::Authorization,
            9 => HttpHeader::CacheControl,
            10 => HttpHeader::Connection,
            11 => HttpHeader::ContentEncoding,
            12 => HttpHeader::ContentLength,
            13 => HttpHeader::ContentMd5,
            14 => HttpHeader::ContentType,
            15 => HttpHeader::Cookie,
            16 => HttpHeader::Date,
            17 => HttpHeader::Expect,
            18 => HttpHeader::Forwarded,
            19 => HttpHeader::From,
            20 => HttpHeader::Host,
            21 => HttpHeader::Http2Settings,
            22 => HttpHeader::IfMatch,
            23 => HttpHeader::IfModifiedSince,
            24 => HttpHeader::IfNoneMatch,
            25 => HttpHeader::IfRange,
            26 => HttpHeader::IfUnmodifiedSince,
            27 => HttpHeader::Location,
            28 => HttpHeader::MaxForwards,
            29 => HttpHeader::Origin,
            30 => HttpHeader::Pragma,
            31 => HttpHeader::Prefer,
            32 => HttpHeader::ProxyAuthorization,
            33 => HttpHeader::Range,
            34 => HttpHeader::Referer,
            35 => HttpHeader::Server,
            36 => HttpHeader::Te,
            37 => HttpHeader::Trailer,
            38 => HttpHeader::TransferEncoding,
            39 => HttpHeader::UserAgent,
            40 => HttpHeader::Upgrade,
            41 => HttpHeader::Via,
            42 => HttpHeader::Warning,
            43 => HttpHeader::PseudoScheme,
            44 => HttpHeader::PseudoMethod,
            45 => HttpHeader::PseudoAuthority,
            46 => HttpHeader::PseudoPath,
            47 => HttpHeader::PseudoStatus,
            _ => HttpHeader::PseudoProtocol,
        }
    }
}

/// Two names of the same number are the same name, unless they are custom.
pub proof fn lemma_ordinal_decides(a: HeaderName, b: HeaderName)
    requires
        a.ordinal() == b.ordinal(),
        !(a is Custom),
    ensures
        a == b,
{
}

impl HttpHeader {
    /// Whether two names are the same name.
    pub fn same_name(&self, other: &HttpHeader) -> (b: bool)
        ensures
            b == (self@ == other@),
    {
        let x: u8 = self.ordinal();
        let y: u8 = other.ordinal();
        if x != y {
            false
        } else if x != 0 {
            proof {
                lemma_ordinal_decides(self@, other@);
            }
            true
        } else {
            match (self, other) {
                (HttpHeader::Custom(a), HttpHeader::Custom(b)) => same_text(
                    a.as_str(),
                    b.as_str(),
                ),
                _ => false,
            }
        }
    }
}

impl PartialEq for HttpHeader {
    fn eq(&self, other: &HttpHeader) -> (b: bool) {
        self.same_name(other)
    }
}

/// The lower-case name of every known header stands for that header: a
/// known name is found again, and no two known names are the same.
#[verifier::rlimit(100)]
pub proof fn lemma_known_names_come_back(header: HeaderName, given: Seq<char>)
    requires
        !(header is Custom),
    ensures
        HeaderName::from_lowercase(header.lower_name(), given) == header,
{
    reveal_strlit("aim");
    assert("aim"@.len() == 3 && "aim"@[2] == 'm');
    reveal_strlit("accept");
    assert("accept"@.len() == 6 && "accept"@[2] == 'c');
    reveal_strlit("accept-charset");
    assert("accept-charset"@.len() == 14 && "accept-charset"@[2] == 'c' && "accept-charset"@[7] == 'c');
    reveal_strlit("accept-datetime");
    assert("accept-datetime"@.len() == 15 && "accept-datetime"@[2] == 'c' && "accept-datetime"@[7] == 'd');
    reveal_strlit("accept-encoding");
    assert("accept-encoding"@.len() == 15 && "accept-encoding"@[2] == 'c' && "accept-encoding"@[7] == 'e');
    reveal_strlit("accept-language");
    assert("accept-language"@.len() == 15 && "accept-language"@[2] == 'c' && "accept-language"@[7] == 'l');
    reveal_strlit("access-control-request-method");
    assert("access-control-request-method"@.len() == 29 && "access-control-request-method"@[2] == 'c' && "access-control-request-method"@[7] == 'c');
    reveal_strlit("authorization");
    assert("authorization"@.len() == 13 && "authorization"@[2] == 't' && "authorization"@[7] == 'z');
    reveal_strlit("cache-control");
    assert("cache-control"@.len() == 13 && "cache-control"@[2] == 'c' && "cache-control"@[7] == 'o');
    reveal_strlit("connection");
    assert("connection"@.len() == 10 && "connection"@[2] == 'n' && "connection"@[7] == 'i');
    reveal_strlit("content-encoding");
    assert("content-encoding"@.len() == 16 && "content-encoding"@[2] == 'n' && "content-encoding"@[7] == '-');
    reveal_strlit("content-length");
    assert("content-length"@.len() == 14 && "content-length"@[2] == 'n' && "content-length"@[7] == '-');
    reveal_strlit("content-md5");
    assert("content-md5"@.len() == 11 && "content-md5"@[2] == 'n' && "content-md5"@[7] == '-');
    reveal_strlit("content-type");
    assert("content-type"@.len() == 12 && "content-type"@[2] == 'n' && "content-type"@[7] == '-');
    reveal_strlit("cookie");
    assert("cookie"@.len() == 6 && "cookie"@[2] == 'o');
    reveal_strlit("date");
    assert("date"@.len() == 4 && "date"@[2] == 't');
    reveal_strlit("expect");
    assert("expect"@.len() == 6 && "expect"@[2] == 'p');
    reveal_strlit("forwarded");
    assert("forwarded"@.len() == 9 && "forwarded"@[2] == 'r' && "forwarded"@[7] == 'e');
    reveal_strlit("from");
    assert("from"@.len() == 4 && "from"@[2] == 'o');
    reveal_strlit("host");
    assert("host"@.len() == 4 && "host"@[2] == 's');
    reveal_strlit("http2-settings");
    assert("http2-settings"@.len() == 14 && "http2-settings"@[2] == 't' && "http2-settings"@[7] == 'e');
    reveal_strlit("if-match");
    assert("if-match"@.len() == 8 && "if-match"@[2] == '-' && "if-match"@[7] == 'h');
    reveal_strlit("if-modified-since");
    assert("if-modified-since"@.len() == 17 && "if-modified-since"@[2] == '-' && "if-modified-since"@[7] == 'f');
    reveal_strlit("if-none-match");
    assert("if-none-match"@.len() == 13 && "if-none-match"@[2] == '-' && "if-none-match"@[7] == '-');
    reveal_strlit("if-range");
    assert("if-range"@.len() == 8 && "if-range"@[2] == '-' && "if-range"@[7] == 'e');
    reveal_strlit("if-unmodified-since");
    assert("if-unmodified-since"@.len() == 19 && "if-unmodified-since"@[2] == '-' && "if-unmodified-since"@[7] == 'd');
    reveal_strlit("location");
    assert("location"@.len() == 8 && "location"@[2] == 'c' && "location"@[7] == 'n');
    reveal_strlit("max-forwards");
    assert("max-forwards"@.len() == 12 && "max-forwards"@[2] == 'x' && "max-forwards"@[7] == 'w');
    reveal_strlit("origin");
    assert("origin"@.len() == 6 && "origin"@[2] == 'i');
    reveal_strlit("pragma");
    assert("pragma"@.len() == 6 && "pragma"@[2] == 'a');
    reveal_strlit("prefer");
    assert("prefer"@.len() == 6 && "prefer"@[2] == 'e');
    reveal_strlit("proxy-authorization");
    assert("proxy-authorization"@.len() == 19 && "proxy-authorization"@[2] == 'o' && "proxy-authorization"@[7] == 'u');
    reveal_strlit("range");
    assert("range"@.len() == 5 && "range"@[2] == 'n');
    reveal_strlit("referer");
    assert("referer"@.len() == 7 && "referer"@[2] == 'f');
    reveal_strlit("server");
    assert("server"@.len() == 6 && "server"@[2] == 'r');
    reveal_strlit("te");
    assert("te"@.len() == 2);
    reveal_strlit("trailer");
    assert("trailer"@.len() == 7 && "trailer"@[2] == 'a');
    reveal_strlit("transfer-encoding");
    assert("transfer-encoding"@.len() == 17 && "transfer-encoding"@[2] == 'a' && "transfer-encoding"@[7] == 'r');
    reveal_strlit("user-agent");
    assert("user-agent"@.len() == 10 && "user-agent"@[2] == 'e' && "user-agent"@[7] == 'e');
    reveal_strlit("upgrade");
    assert("upgrade"@.len() == 7 && "upgrade"@[2] == 'g');
    reveal_strlit("via");
    assert("via"@.len() == 3 && "via"@[2] == 'a');
    reveal_strlit("warning");
    assert("warning"@.len() == 7 && "warning"@[2] == 'r');
    reveal_strlit(":scheme");
    assert(":scheme"@.len() == 7 && ":scheme"@[2] == 'c');
    reveal_strlit(":method");
    assert(":method"@.len() == 7 && ":method"@[2] == 'e');
    reveal_strlit(":authority");
    assert(":authority"@.len() == 10 && ":authority"@[2] == 'u' && ":authority"@[7] == 'i');
    reveal_strlit(":path");
    assert(":path"@.len() == 5 && ":path"@[2] == 'a');
    reveal_strlit(":status");
    assert(":status"@.len() == 7 && ":status"@[2] == 't');
    reveal_strlit(":protocol");
    assert(":protocol"@.len() == 9 && ":protocol"@[2] == 'r' && ":protocol"@[7] == 'o');
}

impl PartialEqSpecImpl for HttpHeader {
    open spec fn obeys_eq_spec() -> bool {
        true
    }

    open spec fn eq_spec(&self, other: &HttpHeader) -> bool {
        self@ == other@
    }
}

impl Eq for HttpHeader {

}

impl Clone for HttpHeader {
    fn clone(&self) -> (copy: Self)
        ensures
            copy@ == self@,
    {
        match self {
            HttpHeader::Custom(name) => HttpHeader::Custom(name.clone()),
            _ => Self::from_ordinal(self.ordinal()),
        }
    }
}

impl MapKey for HttpHeader {
    fn same(&self, other: &Self) -> (b: bool) {
        self.same_name(other)
    }

    fn duplicate(&self) -> (copy: Self) {
        self.clone()
    }
}

} // verus!
