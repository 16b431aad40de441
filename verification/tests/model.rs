use altaria::request::{ContentType, HttpHeader, HttpMethod, HttpScheme};
use altaria::response::HttpStatusCode;
use altaria::text::{decimal_text, parse_usize, separate_path_segments};

#[test]
fn status_codes_have_their_numbers() {
    assert_eq!(HttpStatusCode::Continue.code(), 100);
    assert_eq!(HttpStatusCode::OK.code(), 200);
    assert_eq!(HttpStatusCode::ImUsed.code(), 226);
    assert_eq!(HttpStatusCode::PermanentRedirect.code(), 308);
    assert_eq!(HttpStatusCode::NotFound.code(), 404);
    assert_eq!(HttpStatusCode::ImATeapot.code(), 418);
    assert_eq!(HttpStatusCode::UnavailableForLegalReasons.code(), 451);
    assert_eq!(HttpStatusCode::NetworkAuthenticationRequired.code(), 511);
}

#[test]
fn status_codes_are_found_by_their_numbers() {
    assert_eq!(HttpStatusCode::from_code(200), Some(HttpStatusCode::OK));
    assert_eq!(HttpStatusCode::from_code(404), Some(HttpStatusCode::NotFound));
    assert_eq!(HttpStatusCode::from_code(509), None);
    assert_eq!(HttpStatusCode::from_code(0), None);
}

#[test]
fn status_classes_follow_the_bands() {
    assert!(HttpStatusCode::EarlyHints.is_informational());
    assert!(!HttpStatusCode::EarlyHints.is_success());
    assert!(HttpStatusCode::NoContent.is_success());
    assert!(HttpStatusCode::SeeOther.is_redirection());
    assert!(HttpStatusCode::TooManyRequests.is_client_error());
    assert!(!HttpStatusCode::TooManyRequests.is_server_error());
    assert!(HttpStatusCode::NotExtended.is_server_error());
    assert!(!HttpStatusCode::OK.is_client_error());
}

#[test]
fn every_status_is_in_exactly_one_class() {
    for code in 0u16..600 {
        if let Some(status) = HttpStatusCode::from_code(code) {
            let classes = [
                status.is_informational(),
                status.is_success(),
                status.is_redirection(),
                status.is_client_error(),
                status.is_server_error(),
            ];
            assert_eq!(classes.iter().filter(|c| **c).count(), 1);
            assert_eq!(status.code(), code);
        }
    }
}

#[test]
fn header_names_are_written_as_on_the_wire() {
    assert_eq!(HttpHeader::ContentType.name(), "Content-Type");
    assert_eq!(HttpHeader::ContentMd5.name(), "Content-MD5");
    assert_eq!(HttpHeader::Te.name(), "TE");
    assert_eq!(HttpHeader::Http2Settings.name(), "HTTP2-Settings");
    assert_eq!(HttpHeader::PseudoPath.name(), ":path");
    assert_eq!(HttpHeader::Custom("X-Trace".to_string()).name(), "X-Trace");
}

#[test]
fn header_names_are_known_in_any_case() {
    assert_eq!(HttpHeader::from_name("content-type"), HttpHeader::ContentType);
    assert_eq!(HttpHeader::from_name("Content-Type"), HttpHeader::ContentType);
    assert_eq!(HttpHeader::from_name("CONTENT-LENGTH"), HttpHeader::ContentLength);
    assert_eq!(HttpHeader::from_name("aIm"), HttpHeader::AIM);
    assert_eq!(HttpHeader::from_name(":METHOD"), HttpHeader::PseudoMethod);
}

#[test]
fn unknown_header_names_are_kept_as_given() {
    assert_eq!(HttpHeader::from_name("X-Trace"), HttpHeader::Custom("X-Trace".to_string()));
    assert_ne!(HttpHeader::from_name("X-Trace"), HttpHeader::Custom("x-trace".to_string()));
    assert_eq!(HttpHeader::from_name(""), HttpHeader::Custom(String::new()));
}

#[test]
fn lower_case_follows_unicode() {
    assert_eq!(HttpHeader::from_name("COO\u{212A}IE"), HttpHeader::Cookie);
}

#[test]
fn known_header_names_come_back_from_their_names() {
    let known = [
        HttpHeader::AIM,
        HttpHeader::Accept,
        HttpHeader::AccessControlRequestMethod,
        HttpHeader::Host,
        HttpHeader::IfUnmodifiedSince,
        HttpHeader::Warning,
        HttpHeader::PseudoScheme,
        HttpHeader::PseudoProtocol,
    ];
    for header in known {
        assert_eq!(HttpHeader::from_name(&header.name()), header);
    }
}

#[test]
fn pseudo_headers_are_told_apart() {
    assert!(HttpHeader::PseudoAuthority.is_pseudo());
    assert!(HttpHeader::PseudoStatus.is_pseudo());
    assert!(!HttpHeader::Host.is_pseudo());
    assert!(!HttpHeader::Custom(":path".to_string()).is_pseudo());
}

#[test]
fn header_equality_tells_custom_names_apart() {
    assert_eq!(HttpHeader::Custom("a".to_string()), HttpHeader::Custom("a".to_string()));
    assert_ne!(HttpHeader::Custom("a".to_string()), HttpHeader::Custom("b".to_string()));
    assert_ne!(HttpHeader::Custom("accept".to_string()), HttpHeader::Accept);
    assert_ne!(HttpHeader::Accept, HttpHeader::AcceptCharset);
}

#[test]
fn methods_are_read_exactly() {
    assert_eq!(HttpMethod::from_str("GET"), Some(HttpMethod::GET));
    assert_eq!(HttpMethod::from_str("TRACE"), Some(HttpMethod::TRACE));
    assert_eq!(HttpMethod::from_str("get"), None);
    assert_eq!(HttpMethod::from_str("CONNECT"), None);
    assert_eq!(HttpMethod::PATCH.as_str(), "PATCH");
}

#[test]
fn schemes_default_to_http() {
    assert_eq!(HttpScheme::from_str("https"), HttpScheme::HTTPS);
    assert_eq!(HttpScheme::from_str("http"), HttpScheme::HTTP);
    assert_eq!(HttpScheme::from_str("ftp"), HttpScheme::HTTP);
}

#[test]
fn content_types_are_read_and_written() {
    assert_eq!(ContentType::from_str("application/json"), ContentType::ApplicationJson);
    assert_eq!(ContentType::from_str("text/plain"), ContentType::TextPlain);
    assert_eq!(
        ContentType::from_str("image/png"),
        ContentType::Custom("image/png".to_string())
    );
    assert_eq!(ContentType::MultipartFormData.to_str(), "multipart/form-data");
    assert_eq!(ContentType::Custom("image/png".to_string()).to_str(), "image/png");
    assert_ne!(ContentType::Custom("text/plain".to_string()), ContentType::TextPlain);
}

#[test]
fn numbers_are_written_in_decimal() {
    assert_eq!(decimal_text(0), "0");
    assert_eq!(decimal_text(7), "7");
    assert_eq!(decimal_text(10), "10");
    assert_eq!(decimal_text(404), "404");
    assert_eq!(decimal_text(1234567890), "1234567890");
}

#[test]
fn numbers_are_read_from_decimal() {
    assert_eq!(parse_usize("0"), Some(0));
    assert_eq!(parse_usize("42"), Some(42));
    assert_eq!(parse_usize("+42"), Some(42));
    assert_eq!(parse_usize("007"), Some(7));
    assert_eq!(parse_usize(""), None);
    assert_eq!(parse_usize("+"), None);
    assert_eq!(parse_usize("-1"), None);
    assert_eq!(parse_usize("4 2"), None);
    assert_eq!(parse_usize("12a"), None);
    assert_eq!(parse_usize("99999999999999999999999999"), None);
    assert_eq!(parse_usize(&usize::MAX.to_string()), Some(usize::MAX));
}

#[test]
fn paths_are_cut_into_segments() {
    assert_eq!(separate_path_segments("/users/me"), vec!["users", "me"]);
    assert_eq!(separate_path_segments("users//me/"), vec!["users", "me"]);
    assert_eq!(separate_path_segments("/"), Vec::<String>::new());
    assert_eq!(separate_path_segments(""), Vec::<String>::new());
    assert_eq!(separate_path_segments("/caf\u{e9}/x"), vec!["caf\u{e9}", "x"]);
}
