use http_server::http::method::Method;
use http_server::http::method::MethodError;
use http_server::http::parse_error::ParseError;
use http_server::http::request::Headers;
use http_server::http::request::Request;
use http_server::http::response::Response;
use http_server::http::response::StatusCode;

#[test]
fn method_tokens_round_trip() {
    let cases = [
        (Method::GET, "GET"),
        (Method::POST, "POST"),
        (Method::PUT, "PUT"),
        (Method::DELETE, "DELETE"),
        (Method::HEAD, "HEAD"),
        (Method::OPTIONS, "OPTIONS"),
        (Method::PATCH, "PATCH"),
        (Method::TRACE, "TRACE"),
        (Method::CONNECT, "CONNECT"),
    ];
    for (method, token) in cases {
        assert_eq!(Method::from_str(token), Ok(method));
        assert_eq!(method.as_str(), token);
    }
}

#[test]
fn method_unknown_token_rejected() {
    assert_eq!(Method::from_str("BREW"), Err(MethodError::InvalidMethod));
    assert_eq!(Method::from_str("get"), Err(MethodError::InvalidMethod));
    assert_eq!(Method::from_str(""), Err(MethodError::InvalidMethod));
    assert_eq!(MethodError::InvalidMethod.message(), "Invalid HTTP method");
}

#[test]
fn parse_simple_get_with_query_and_header() {
    let buffer = b"GET /?a=1 HTTP/1.1\r\nHost: x\r\n\r\n";
    let request = Request::try_from(&buffer[..]).unwrap();
    assert_eq!(request.method, Method::GET);
    assert_eq!(request.path, "/");
    assert_eq!(request.query, Some("a=1".to_string()));
    assert_eq!(request.headers.get("Host"), Some(&"x".to_string()));
    assert_eq!(request.headers.get("Missing"), None);
}

#[test]
fn parse_missing_protocol_token_is_invalid_request() {
    let buffer = b"GET / \r\n\r\n";
    assert_eq!(
        Request::try_from(&buffer[..]).map(|_| ()),
        Err(ParseError::InvalidRequest)
    );
}

#[test]
fn parse_wrong_protocol_is_invalid_protocol() {
    let buffer = b"GET / FOO/1.1\r\n\r\n";
    assert_eq!(
        Request::try_from(&buffer[..]).map(|_| ()),
        Err(ParseError::InvalidProtocol)
    );
}

#[test]
fn parse_missing_tokens_beat_method_validation() {
    // Fewer than three tokens is InvalidRequest even when the method token
    // is also unknown: presence is checked before the method is validated.
    let two_tokens = b"FOO /\r\n\r\n";
    assert_eq!(
        Request::try_from(&two_tokens[..]).map(|_| ()),
        Err(ParseError::InvalidRequest)
    );
    let one_token = b"FOO\r\n\r\n";
    assert_eq!(
        Request::try_from(&one_token[..]).map(|_| ()),
        Err(ParseError::InvalidRequest)
    );
}

#[test]
fn parse_unknown_method_is_invalid_method() {
    let buffer = b"BREW / HTTP/1.1\r\n\r\n";
    assert_eq!(
        Request::try_from(&buffer[..]).map(|_| ()),
        Err(ParseError::InvalidMethod)
    );
}

#[test]
fn parse_non_utf8_is_invalid_encoding() {
    let buffer = [0xFFu8, 0xFE, 0x00, 0x41];
    assert_eq!(
        Request::try_from(&buffer[..]).map(|_| ()),
        Err(ParseError::InvalidEncoding)
    );
}

#[test]
fn parse_empty_buffer_is_invalid_request() {
    let buffer: [u8; 0] = [];
    assert_eq!(
        Request::try_from(&buffer[..]).map(|_| ()),
        Err(ParseError::InvalidRequest)
    );
}

#[test]
fn parse_path_without_query_has_no_query() {
    let buffer = b"GET /about.html HTTP/1.1\r\n\r\n";
    let request = Request::try_from(&buffer[..]).unwrap();
    assert_eq!(request.path, "/about.html");
    assert_eq!(request.query, None);
}

#[test]
fn parse_empty_query_is_present_but_empty() {
    let buffer = b"GET /x? HTTP/1.1\r\n\r\n";
    let request = Request::try_from(&buffer[..]).unwrap();
    assert_eq!(request.path, "/x");
    assert_eq!(request.query, Some("".to_string()));
}

#[test]
fn parse_duplicate_header_last_wins() {
    let buffer = b"GET / HTTP/1.1\r\nHost: first\r\nHost: second\r\n\r\n";
    let request = Request::try_from(&buffer[..]).unwrap();
    assert_eq!(request.headers.get("Host"), Some(&"second".to_string()));
}

#[test]
fn parse_header_without_colon_is_skipped() {
    let buffer = b"GET / HTTP/1.1\r\nNoColonHere\r\nHost: x\r\n\r\n";
    let request = Request::try_from(&buffer[..]).unwrap();
    assert_eq!(request.headers.get("Host"), Some(&"x".to_string()));
    assert_eq!(request.headers.get("NoColonHere"), None);
}

#[test]
fn parse_headers_stop_at_empty_line() {
    let buffer = b"GET / HTTP/1.1\r\nHost: x\r\n\r\nIgnored: body\r\n";
    let request = Request::try_from(&buffer[..]).unwrap();
    assert_eq!(request.headers.get("Ignored"), None);
}

#[test]
fn parse_header_names_and_values_are_trimmed() {
    let buffer = b"GET / HTTP/1.1\r\n  Accept  :  text/html  \r\n\r\n";
    let request = Request::try_from(&buffer[..]).unwrap();
    assert_eq!(request.headers.get("Accept"), Some(&"text/html".to_string()));
}

#[test]
fn headers_insert_and_get() {
    let mut headers = Headers::new();
    headers.insert("Host".to_string(), "a".to_string());
    headers.insert("Host".to_string(), "b".to_string());
    assert_eq!(headers.get("Host"), Some(&"b".to_string()));
    assert_eq!(headers.get("host"), None);
}

#[test]
fn request_new_keeps_parts() {
    let mut headers = Headers::new();
    headers.insert("Host".to_string(), "x".to_string());
    let request = Request::new(Method::POST, "/p".to_string(), None, headers);
    assert_eq!(request.method, Method::POST);
    assert_eq!(request.path, "/p");
    assert_eq!(request.query, None);
}

#[test]
fn status_codes_and_reasons() {
    assert_eq!(StatusCode::Okay.code(), 200);
    assert_eq!(StatusCode::BadRequest.code(), 400);
    assert_eq!(StatusCode::NotFound.code(), 404);
    assert_eq!(StatusCode::Okay.reason(), "OK");
    assert_eq!(StatusCode::BadRequest.reason(), "Bad Request");
    assert_eq!(StatusCode::NotFound.reason(), "Not Found");
}

#[test]
fn serialize_response_with_body() {
    let response = Response::new(StatusCode::Okay, Some("hello".to_string()));
    assert_eq!(response.serialize(), "HTTP/1.1 200 OK\r\n\r\nhello");
}

#[test]
fn serialize_response_without_body() {
    let response = Response::new(StatusCode::NotFound, None);
    assert_eq!(response.serialize(), "HTTP/1.1 404 Not Found\r\n\r\n");
}

#[test]
fn parse_error_messages() {
    assert_eq!(ParseError::InvalidRequest.message(), "Invalid HTTP request");
    assert_eq!(ParseError::InvalidEncoding.message(), "Invalid UTF-8 encoding");
    assert_eq!(ParseError::InvalidProtocol.message(), "Invalid HTTP protocol");
    assert_eq!(ParseError::InvalidMethod.message(), "Invalid HTTP method");
}
