use altaria::encoder::alpha::AlphaHttpEncoder;
use altaria::encoder::beta::BetaHttpEncoder;
use altaria::encoder::format::{DefaultHttpResponseFormatter, HttpResponseFormatter};
use altaria::parser::alpha::AlphaHttpParser;
use altaria::parser::beta::{find_headers_frame, starts_with_preface, BetaHttpParser};
use altaria::parser::hpack::is_well_formed_block;
use altaria::parser::HttpParserError;
use altaria::request::{HttpHeader, HttpHeaderMap, HttpMethod, HttpProtocol, HttpScheme};
use altaria::response::into::IntoResponse;
use altaria::response::{HttpResponse, HttpStatusCode};

fn header_pairs(map: &HttpHeaderMap) -> Vec<(HttpHeader, String)> {
    (0..map.len()).map(|i| (map.key(i).clone(), map.value(i).clone())).collect()
}

const PREFACE: &[u8] = b"PRI * HTTP/2.0\r\n\r\nSM\r\n\r\n";

fn frame(kind: u8, flags: u8, payload: &[u8]) -> Vec<u8> {
    let n = payload.len();
    let mut bytes = vec![(n >> 16) as u8, (n >> 8) as u8, n as u8, kind, flags, 0, 0, 0, 1];
    bytes.extend_from_slice(payload);
    bytes
}

#[test]
fn request_lines_give_method_and_path() {
    let parser = AlphaHttpParser::new();
    assert_eq!(
        parser.parse_request_line(b"GET /users/me HTTP/1.1\r\n"),
        Ok((HttpMethod::GET, "/users/me".to_string()))
    );
    assert_eq!(
        parser.parse_request_line(b"  POST\t/a?b=c  \n"),
        Ok((HttpMethod::POST, "/a?b=c".to_string()))
    );
}

#[test]
fn bad_request_lines_are_refused() {
    let parser = AlphaHttpParser::new();
    assert_eq!(parser.parse_request_line(b"GET "), Err(HttpParserError::InvalidRequestLine));
    assert_eq!(parser.parse_request_line(b""), Err(HttpParserError::InvalidRequestLine));
    assert_eq!(parser.parse_request_line(b"GET      \r\n"), Err(HttpParserError::InvalidRequestLine));
    assert_eq!(parser.parse_request_line(b"       \r\n"), Err(HttpParserError::InvalidRequestLine));
    assert_eq!(
        parser.parse_request_line(b"GET /\xff\xfe HTTP/1.1\r\n"),
        Err(HttpParserError::InvalidRequestLine)
    );
    assert_eq!(
        parser.parse_request_line(b"FETCH / HTTP/1.1\r\n"),
        Err(HttpParserError::InvalidMethod)
    );
    assert_eq!(
        parser.parse_request_line(b"get / HTTP/1.1\r\n"),
        Err(HttpParserError::InvalidMethod)
    );
}

#[test]
fn header_lines_are_split_at_the_first_colon() {
    let parser = AlphaHttpParser::new();
    let mut headers = HttpHeaderMap::new();
    assert_eq!(parser.parse_header_line(b"Host: localhost:8080\r\n", &mut headers), Ok(()));
    assert_eq!(parser.parse_header_line(b"  content-TYPE :  text/html  \r\n", &mut headers), Ok(()));
    assert_eq!(parser.parse_header_line(b"X-Trace:abc\r\n", &mut headers), Ok(()));
    assert_eq!(parser.parse_header_line(b"no colon here\r\n", &mut headers), Ok(()));
    assert_eq!(parser.parse_header_line(b"HOST: other\r\n", &mut headers), Ok(()));
    assert_eq!(
        header_pairs(&headers),
        vec![
            (HttpHeader::Host, "other".to_string()),
            (HttpHeader::ContentType, "text/html".to_string()),
            (HttpHeader::Custom("x-trace".to_string()), "abc".to_string()),
        ]
    );
}

#[test]
fn bad_header_lines_are_refused() {
    let parser = AlphaHttpParser::new();
    let mut headers = HttpHeaderMap::new();
    assert_eq!(
        parser.parse_header_line(b"Na\xffme: value\r\n", &mut headers),
        Err(HttpParserError::HeaderLine)
    );
    assert_eq!(
        parser.parse_header_line(b"Name: val\xc3\r\n", &mut headers),
        Err(HttpParserError::HeaderLine)
    );
    let mut long = b"X: ".to_vec();
    long.extend(std::iter::repeat(b'a').take(8192));
    assert_eq!(parser.parse_header_line(&long, &mut headers), Err(HttpParserError::HeaderLine));
    assert!(headers.is_empty());
    let mut fits = b"X: ".to_vec();
    fits.extend(std::iter::repeat(b'a').take(8189));
    assert_eq!(parser.parse_header_line(&fits, &mut headers), Ok(()));
    assert_eq!(headers.len(), 1);
}

#[test]
fn heads_are_parsed_into_requests() {
    let parser = AlphaHttpParser::new();
    let head = b"POST /count?by=2 HTTP/1.1\r\nHost: example.org\r\nContent-Length: 12\r\nContent-Type: application/json\r\n\r\n{\"ignored\":1}";
    let request = parser.parse("10.0.0.1:5000", head).expect("a request");
    assert_eq!(request.protocol, HttpProtocol::HTTP1);
    assert_eq!(request.scheme, HttpScheme::HTTP);
    assert_eq!(request.method, HttpMethod::POST);
    assert_eq!(request.path, "/count?by=2");
    assert_eq!(request.peer_addr, "10.0.0.1:5000");
    assert_eq!(request.content_length, 12);
    assert_eq!(request.body_reader.length(), 12);
    assert!(!request.body_reader.is_consumed());
    assert!(request.flow.is_none());
    assert!(request.path_values.is_none());
    assert_eq!(
        header_pairs(&request.headers),
        vec![
            (HttpHeader::Host, "example.org".to_string()),
            (HttpHeader::ContentLength, "12".to_string()),
            (HttpHeader::ContentType, "application/json".to_string()),
        ]
    );
}

#[test]
fn heads_without_a_usable_content_length_are_refused() {
    let parser = AlphaHttpParser::new();
    assert!(matches!(
        parser.parse("a", b"GET / HTTP/1.1\r\nHost: x\r\n\r\n"),
        Err(HttpParserError::InvalidContentLength)
    ));
    assert!(matches!(
        parser.parse("a", b"GET / HTTP/1.1\r\nContent-Length: twelve\r\n\r\n"),
        Err(HttpParserError::InvalidContentLength)
    ));
    assert!(matches!(
        parser.parse("a", b"GET / HTTP/1.1\r\nContent-Length: -1\r\n\r\n"),
        Err(HttpParserError::InvalidContentLength)
    ));
    assert!(matches!(
        parser.parse("a", b"GET / HTTP/1.1"),
        Err(HttpParserError::InvalidContentLength)
    ));
    assert!(matches!(parser.parse("a", b"GET"), Err(HttpParserError::InvalidRequestLine)));
    assert!(matches!(
        parser.parse("a", b"PUSH / HTTP/1.1\r\nContent-Length: 0\r\n\r\n"),
        Err(HttpParserError::InvalidMethod)
    ));
    assert!(matches!(
        parser.parse("a", b"GET / HTTP/1.1\r\nBad\xff: 1\r\nContent-Length: 0\r\n\r\n"),
        Err(HttpParserError::HeaderLine)
    ));
}

#[test]
fn headers_end_at_the_first_short_line() {
    let parser = AlphaHttpParser::new();
    let request = parser
        .parse("a", b"GET / HTTP/1.1\nContent-Length: 0\n\nHost: late\n")
        .expect("a request");
    assert_eq!(request.headers.len(), 1);
    assert!(parser.ends_headers(b"\r\n"));
    assert!(parser.ends_headers(b""));
    assert!(!parser.ends_headers(b"a\r\n"));
    assert_eq!(parser.next_line(b"ab\ncd", 0), 3);
    assert_eq!(parser.next_line(b"ab\ncd", 3), 5);
}

#[test]
fn responses_are_written_line_by_line() {
    let mut headers = HttpHeaderMap::new();
    headers.insert(HttpHeader::ContentType, "text/plain".to_string());
    headers.insert(HttpHeader::Custom("X-Trace".to_string()), "abc".to_string());
    let response = HttpResponse { status_code: HttpStatusCode::NotFound, headers, body: b"gone".to_vec() };
    let bytes = AlphaHttpEncoder::new().encode(response);
    assert_eq!(
        bytes,
        b"HTTP/1.1 404\r\nContent-Type: text/plain\r\nX-Trace: abc\r\n\r\ngone".to_vec()
    );
    let empty = AlphaHttpEncoder::new().encode(HttpResponse::empty(HttpStatusCode::NoContent));
    assert_eq!(empty, b"HTTP/1.1 204\r\n\r\n".to_vec());
    let mut line = b"> ".to_vec();
    AlphaHttpEncoder::new().insert_header("Host", "x", &mut line);
    assert_eq!(line, b"> Host: x\r\n".to_vec());
}

#[test]
fn encoded_headers_are_read_back_by_the_parser() {
    let mut headers = HttpHeaderMap::new();
    headers.insert(HttpHeader::ContentType, "application/json".to_string());
    headers.insert(HttpHeader::ContentLength, "2".to_string());
    headers.insert(HttpHeader::Custom("x-trace".to_string()), "a: b".to_string());
    let response = HttpResponse {
        status_code: HttpStatusCode::Created,
        headers: headers.clone(),
        body: b"{}".to_vec(),
    };
    let bytes = AlphaHttpEncoder::new().encode(response);
    let parser = AlphaHttpParser::new();
    let first = parser.next_line(&bytes, 0);
    assert_eq!(&bytes[..first], b"HTTP/1.1 201\r\n");
    assert_eq!(HttpStatusCode::from_code(201), Some(HttpStatusCode::Created));
    let read = parser.parse_headers(&bytes, first).expect("headers");
    assert_eq!(header_pairs(&read), header_pairs(&headers));
    let mut at = first;
    loop {
        let end = parser.next_line(&bytes, at);
        let done = parser.ends_headers(&bytes[at..end]);
        at = end;
        if done {
            break;
        }
    }
    assert_eq!(&bytes[at..], b"{}");
}

#[test]
fn formatter_adds_what_is_missing() {
    let formatter = DefaultHttpResponseFormatter::new();
    let response = HttpResponse {
        status_code: HttpStatusCode::OK,
        headers: HttpHeaderMap::new(),
        body: b"hello".to_vec(),
    };
    let ready = formatter.format_with_date(response, "Thu, 01 Jan 1970 00:00:00 GMT");
    assert_eq!(
        header_pairs(&ready.headers),
        vec![
            (HttpHeader::Date, "Thu, 01 Jan 1970 00:00:00 GMT".to_string()),
            (HttpHeader::Server, "altaria".to_string()),
            (HttpHeader::ContentType, "text/plain".to_string()),
            (HttpHeader::ContentLength, "5".to_string()),
        ]
    );
    assert_eq!(ready.body, b"hello".to_vec());
    assert_eq!(ready.status_code, HttpStatusCode::OK);
}

#[test]
fn formatter_leaves_what_is_set() {
    let formatter = DefaultHttpResponseFormatter::new();
    let mut headers = HttpHeaderMap::new();
    headers.insert(HttpHeader::ContentLength, "999".to_string());
    headers.insert(HttpHeader::Server, "mine".to_string());
    headers.insert(HttpHeader::Date, "yesterday".to_string());
    headers.insert(HttpHeader::ContentType, "text/html".to_string());
    let response = HttpResponse { status_code: HttpStatusCode::OK, headers: headers.clone(), body: b"hi".to_vec() };
    let ready = formatter.format_with_date(response, "today");
    assert_eq!(header_pairs(&ready.headers), header_pairs(&headers));
    let again = formatter.format(ready);
    assert_eq!(header_pairs(&again.headers), header_pairs(&headers));
}

#[test]
fn formatter_dates_look_like_http_dates() {
    let formatter = DefaultHttpResponseFormatter::new();
    let ready = formatter.format(HttpResponse::empty(HttpStatusCode::OK));
    let date = ready.headers.get(&HttpHeader::Date).expect("a date");
    assert_eq!(date.len(), 29);
    assert!(date.ends_with(" GMT"));
    assert_eq!(&date[3..5], ", ");
    assert_eq!(ready.headers.get(&HttpHeader::ContentLength), Some(&"0".to_string()));
}

#[test]
fn formatter_inserts_only_absent_headers() {
    let formatter = DefaultHttpResponseFormatter::new();
    let mut headers = HttpHeaderMap::new();
    formatter.insert_header_if_not_present(HttpHeader::Server, "one", &mut headers);
    formatter.insert_header_if_not_present(HttpHeader::Server, "two", &mut headers);
    assert_eq!(header_pairs(&headers), vec![(HttpHeader::Server, "one".to_string())]);
}

#[test]
fn values_turn_into_responses() {
    let text = "hi".into_response();
    assert_eq!(text.status_code, HttpStatusCode::OK);
    assert_eq!(header_pairs(&text.headers), vec![(HttpHeader::ContentType, "text/plain".to_string())]);
    assert_eq!(text.body, b"hi".to_vec());
    let owned = String::from("caf\u{e9}").into_response();
    assert_eq!(owned.body, "caf\u{e9}".as_bytes().to_vec());
    let bare = HttpStatusCode::Accepted.into_response();
    assert_eq!(bare.status_code, HttpStatusCode::Accepted);
    assert!(bare.body.is_empty());
    let pair = (HttpStatusCode::ImATeapot, "tea").into_response();
    assert_eq!(pair.status_code, HttpStatusCode::ImATeapot);
    assert_eq!(pair.body, b"tea".to_vec());
    assert_eq!(header_pairs(&pair.headers), vec![(HttpHeader::ContentType, "text/plain".to_string())]);
    let same = HttpResponse::empty(HttpStatusCode::Gone).into_response();
    assert_eq!(same.status_code, HttpStatusCode::Gone);
    assert!(same.headers.is_empty());
}

#[test]
fn preface_is_checked_exactly() {
    assert!(starts_with_preface(PREFACE));
    let mut longer = PREFACE.to_vec();
    longer.extend_from_slice(&[0, 0, 0]);
    assert!(starts_with_preface(&longer));
    assert!(!starts_with_preface(&PREFACE[..23]));
    assert!(!starts_with_preface(b""));
    let mut wrong = PREFACE.to_vec();
    wrong[23] = b'x';
    assert!(!starts_with_preface(&wrong));
    let mut parser = BetaHttpParser::new();
    wrong.extend(frame(0x01, 0, &[0x82, 0x84]));
    assert!(matches!(parser.parse("a", &wrong), Err(HttpParserError::ConnectionPreface)));
    assert!(matches!(
        parser.parse("a", b"GET / HTTP/1.1\r\n\r\n"),
        Err(HttpParserError::ConnectionPreface)
    ));
}

#[test]
fn frames_before_the_headers_are_passed_over() {
    let mut data = PREFACE.to_vec();
    data.extend(frame(0x07, 0, &[1, 2, 3, 4, 5, 6]));
    data.extend(frame(0x08, 0, b"data"));
    data.extend(frame(0x04, 0, &[]));
    let start = data.len();
    data.extend(frame(0x01, 0x04, &[0x82, 0x84]));
    assert_eq!(find_headers_frame(&data, 24), Ok((0x04, start + 9, start + 11)));
    let mut unknown = PREFACE.to_vec();
    unknown.extend(frame(0x03, 0, &[]));
    assert_eq!(find_headers_frame(&unknown, 24), Err(HttpParserError::UnknownFrameType));
    assert_eq!(find_headers_frame(PREFACE, 24), Err(HttpParserError::FrameHeader));
    let mut cut = PREFACE.to_vec();
    cut.extend_from_slice(&[0, 0, 5, 1, 0, 0, 0, 0, 1, 0x82]);
    assert_eq!(find_headers_frame(&cut, 24), Err(HttpParserError::FramePayload));
}

#[test]
fn header_blocks_are_decoded_into_requests() {
    let mut block = vec![0x82, 0x84, 0x87];
    block.extend_from_slice(&[0x40, 0x07]);
    block.extend_from_slice(b"x-trace");
    block.push(0x03);
    block.extend_from_slice(b"abc");
    let mut data = PREFACE.to_vec();
    data.extend(frame(0x01, 0x04, &block));
    let mut parser = BetaHttpParser::new();
    let request = parser.parse("peer", &data).expect("a request");
    assert_eq!(request.protocol, HttpProtocol::HTTP2);
    assert_eq!(request.method, HttpMethod::GET);
    assert_eq!(request.path, "/");
    assert_eq!(request.scheme, HttpScheme::HTTPS);
    assert_eq!(request.content_length, 0);
    assert_eq!(request.peer_addr, "peer");
    assert_eq!(
        header_pairs(&request.headers),
        vec![
            (HttpHeader::PseudoMethod, "GET".to_string()),
            (HttpHeader::PseudoPath, "/".to_string()),
            (HttpHeader::PseudoScheme, "https".to_string()),
            (HttpHeader::Custom("x-trace".to_string()), "abc".to_string()),
        ]
    );
}

#[test]
fn the_decoder_keeps_its_table_across_blocks() {
    let mut parser = BetaHttpParser::new();
    let mut first = vec![0x82, 0x84];
    first.extend_from_slice(&[0x40, 0x01, b'k', 0x01, b'v']);
    let headers = parser.parse_headers_frame(&first, 0).expect("headers");
    assert_eq!(headers.get(&HttpHeader::Custom("k".to_string())), Some(&"v".to_string()));
    let again = parser.parse_headers_frame(&[0x82, 0x84, 0xbe], 0).expect("headers");
    assert_eq!(again.get(&HttpHeader::Custom("k".to_string())), Some(&"v".to_string()));
    let mut fresh = BetaHttpParser::new();
    assert_eq!(
        fresh.parse_headers_frame(&[0x82, 0x84, 0xbe], 0).err(),
        Some(HttpParserError::HeaderDecoding)
    );
}

#[test]
fn flags_announce_fields_before_the_block() {
    let mut parser = BetaHttpParser::new();
    let headers = parser.parse_headers_frame(&[9, 0x82, 0x84], 0x08).expect("headers");
    assert_eq!(headers.len(), 2);
    let headers = parser.parse_headers_frame(&[9, 9, 9, 9, 0x82], 0x20).expect("headers");
    assert_eq!(headers.len(), 1);
    let headers = parser.parse_headers_frame(&[9, 9, 9, 9, 9, 0x82], 0x28).expect("headers");
    assert_eq!(headers.len(), 1);
    assert_eq!(parser.parse_headers_frame(&[9, 9], 0x28).err(), Some(HttpParserError::InvalidFrame));
}

#[test]
fn malformed_blocks_never_reach_the_decoder() {
    assert!(is_well_formed_block(&[]));
    assert!(is_well_formed_block(&[0x82, 0x84]));
    assert!(is_well_formed_block(&[0x20]));
    assert!(is_well_formed_block(&[0x3f, 0x01]));
    assert!(!is_well_formed_block(&[0x3f]));
    assert!(!is_well_formed_block(&[0x3f, 0x80, 0x80, 0x80, 0x80]));
    assert!(!is_well_formed_block(&[0x40, 0x05, b'a']));
    assert!(!is_well_formed_block(&[0xff]));
    let mut parser = BetaHttpParser::new();
    assert_eq!(parser.parse_headers_frame(&[0x3f], 0).err(), Some(HttpParserError::HeaderDecoding));
    assert_eq!(
        parser.parse_headers_frame(&[0x82, 0x3f, 0xff], 0).err(),
        Some(HttpParserError::HeaderDecoding)
    );
    assert_eq!(parser.parse_headers_frame(&[0xfe], 0).err(), Some(HttpParserError::HeaderDecoding));
}

#[test]
fn required_pseudo_headers_are_asked_for() {
    let mut parser = BetaHttpParser::new();
    let mut data = PREFACE.to_vec();
    data.extend(frame(0x01, 0x04, &[0x82]));
    assert!(matches!(parser.parse("a", &data), Err(HttpParserError::RequiredHeaderNotFound)));
    let mut data = PREFACE.to_vec();
    data.extend(frame(0x01, 0x04, &[0x84]));
    assert!(matches!(parser.parse("a", &data), Err(HttpParserError::RequiredHeaderNotFound)));
    let mut data = PREFACE.to_vec();
    data.extend(frame(0x01, 0x04, &[0x82, 0x84]));
    let request = parser.parse("a", &data).expect("a request");
    assert_eq!(request.scheme, HttpScheme::HTTP);
}

#[test]
fn frames_carry_length_type_flags_and_stream() {
    let encoder = BetaHttpEncoder::new();
    assert_eq!(
        encoder.create_frame(0x1, 0x4, 1, b"ab"),
        vec![0, 0, 2, 1, 4, 0, 0, 0, 1, b'a', b'b']
    );
    assert_eq!(
        encoder.create_frame(0x0, 0x1, 0x8123_4567, &[]),
        vec![0, 0, 0, 0, 1, 0x01, 0x23, 0x45, 0x67]
    );
    let big = vec![7u8; 0x01_02_03];
    assert_eq!(&encoder.create_frame(0, 0, 1, &big)[..3], &[1, 2, 3]);
    assert_eq!(
        encoder.frames(&[0x88], b"hi"),
        vec![0, 0, 1, 1, 4, 0, 0, 0, 1, 0x88, 0, 0, 2, 0, 1, 0, 0, 0, 1, b'h', b'i']
    );
    assert_eq!(encoder.frames(&[0x88], b""), vec![0, 0, 1, 1, 4, 0, 0, 0, 1, 0x88]);
}

#[test]
fn compressed_headers_are_read_back_by_a_decoder() {
    let mut headers = HttpHeaderMap::new();
    headers.insert(HttpHeader::ContentType, "text/plain".to_string());
    headers.insert(HttpHeader::Custom("x-trace".to_string()), "abc".to_string());
    let response = HttpResponse { status_code: HttpStatusCode::OK, headers, body: b"hi".to_vec() };
    let mut encoder = BetaHttpEncoder::new();
    let bytes = encoder.encode(response);
    let length = ((bytes[0] as usize) << 16) | ((bytes[1] as usize) << 8) | bytes[2] as usize;
    assert_eq!(bytes[3], 0x1);
    assert_eq!(bytes[4], 0x4);
    let block = &bytes[9..9 + length];
    let mut decoder = hpack::Decoder::new();
    let pairs = decoder.decode(block).expect("a block");
    assert_eq!(
        pairs,
        vec![
            (b"Content-Type".to_vec(), b"text/plain".to_vec()),
            (b"x-trace".to_vec(), b"abc".to_vec()),
        ]
    );
    assert_eq!(&bytes[9 + length..], &[0, 0, 2, 0, 1, 0, 0, 0, 1, b'h', b'i']);
}

#[test]
fn the_head_ends_behind_the_empty_line() {
    let parser = AlphaHttpParser::new();
    let data = b"GET / HTTP/1.1\r\nContent-Length: 2\r\n\r\nhi";
    let first = parser.next_line(data, 0);
    let end = parser.find_head_end(data, first);
    assert_eq!(&data[end..], b"hi");
    assert_eq!(parser.find_head_end(b"a: b\r\nc: d", 0), 10);
    assert_eq!(parser.find_head_end(b"", 0), 0);
}

#[test]
fn written_numbers_are_read_back() {
    for n in [0usize, 9, 10, 99, 100, 404, 65535, 4294967295] {
        assert_eq!(
            altaria::text::parse_usize(&altaria::text::decimal_text(n)),
            Some(n)
        );
    }
}

#[test]
fn bytes_that_are_no_text_are_read_with_replacements() {
    let mut block = vec![0x82, 0x84];
    block.extend_from_slice(&[0x40, 0x02, b'x', 0xff, 0x02, 0xc3, 0x28]);
    let mut parser = BetaHttpParser::new();
    let headers = parser.parse_headers_frame(&block, 0).expect("headers");
    assert_eq!(
        headers.get(&HttpHeader::Custom("x\u{fffd}".to_string())),
        Some(&"\u{fffd}(".to_string())
    );
}

#[test]
fn the_encoder_keeps_its_table_across_responses() {
    let mut headers = HttpHeaderMap::new();
    headers.insert(HttpHeader::Custom("x-trace".to_string()), "abc".to_string());
    let response = HttpResponse { status_code: HttpStatusCode::OK, headers, body: Vec::new() };
    let mut encoder = BetaHttpEncoder::new();
    let first = encoder.encode_headers(&response);
    let second = encoder.encode_headers(&response);
    assert_eq!(first[0], 0x40);
    assert_eq!(second, vec![0x80 | 62]);
    let mut fresh = BetaHttpEncoder::new();
    assert_eq!(fresh.encode_headers(&response), first);
    assert_eq!(fresh.encode(response), vec![0, 0, 1, 1, 4, 0, 0, 0, 1, 0x80 | 62]);
}
