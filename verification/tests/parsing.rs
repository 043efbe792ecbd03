use server::http::method::MethodError;
use server::http::request::get_next_word;
use server::http::{Method, ParseError, QueryStringValue, Request};
use std::convert::TryFrom;

#[test]
fn parses_the_plain_root_request() {
    let request = Request::from_byte_array(b"GET / HTTP/1.1\r\n\r\n").unwrap();
    assert_eq!(*request.method(), Method::GET);
    assert_eq!(request.path(), "/");
    assert!(request.query_string().is_none());
}

#[test]
fn parses_a_query_with_repeated_and_bare_keys() {
    let request = Request::from_byte_array(b"GET /x?a=1&a=2&b HTTP/1.1\r\n\r\n").unwrap();
    assert_eq!(*request.method(), Method::GET);
    assert_eq!(request.path(), "/x");
    let query = request.query_string().unwrap();
    assert_eq!(query.get("a"), Some(&QueryStringValue::Multiple(vec!["1", "2"])));
    assert_eq!(query.get("b"), Some(&QueryStringValue::Single("")));
    assert_eq!(query.get("c"), None);
}

#[test]
fn rejects_another_protocol_version() {
    let r = Request::from_byte_array(b"GET / HTTP/1.0\r\n\r\n");
    assert_eq!(r.unwrap_err(), ParseError::InvalidProtocol);
    let r = Request::from_byte_array(b"GET / http/1.1\r\n\r\n");
    assert_eq!(r.unwrap_err(), ParseError::InvalidProtocol);
    let r = Request::from_byte_array(b"GET / HTTP/1.1x\r\n\r\n");
    assert_eq!(r.unwrap_err(), ParseError::InvalidProtocol);
}

#[test]
fn rejects_an_unknown_method() {
    let r = Request::from_byte_array(b"FOO / HTTP/1.1\r\n\r\n");
    assert_eq!(r.unwrap_err(), ParseError::InvalidMethod);
    let r = Request::from_byte_array(b"get / HTTP/1.1\r\n\r\n");
    assert_eq!(r.unwrap_err(), ParseError::InvalidMethod);
}

#[test]
fn rejects_bytes_that_are_not_utf8() {
    let r = Request::from_byte_array(b"GET /\xff HTTP/1.1\r\n\r\n");
    assert_eq!(r.unwrap_err(), ParseError::InvalidEncoding);
    let r = Request::from_byte_array(&[0xc3u8]);
    assert_eq!(r.unwrap_err(), ParseError::InvalidEncoding);
}

#[test]
fn rejects_a_line_of_two_tokens() {
    let r = Request::from_byte_array(b"GET /\r\n");
    assert_eq!(r.unwrap_err(), ParseError::InvalidRequest);
    let r = Request::from_byte_array(b"GET / HTTP/1.1");
    assert_eq!(r.unwrap_err(), ParseError::InvalidRequest);
    let r = Request::from_byte_array(b"");
    assert_eq!(r.unwrap_err(), ParseError::InvalidRequest);
}

#[test]
fn the_missing_token_is_reported_before_the_protocol_and_the_method() {
    let r = Request::from_byte_array(b"FOO /");
    assert_eq!(r.unwrap_err(), ParseError::InvalidRequest);
}

#[test]
fn the_protocol_is_checked_before_the_method() {
    let r = Request::from_byte_array(b"FOO / HTTP/1.0\r\n");
    assert_eq!(r.unwrap_err(), ParseError::InvalidProtocol);
}

#[test]
fn the_encoding_is_checked_first() {
    let r = Request::from_byte_array(b"FOO\xff");
    assert_eq!(r.unwrap_err(), ParseError::InvalidEncoding);
}

#[test]
fn parses_from_a_zero_padded_read_buffer() {
    let mut buffer = [0u8; 1024];
    let line = b"POST /submit?x=y HTTP/1.1\r\nHost: example\r\n\r\n";
    buffer[..line.len()].copy_from_slice(line);
    let request = Request::from_byte_array(&buffer[..]).unwrap();
    assert_eq!(*request.method(), Method::POST);
    assert_eq!(request.path(), "/submit");
    assert_eq!(
        request.query_string().unwrap().get("x"),
        Some(&QueryStringValue::Single("y"))
    );
}

#[test]
fn splits_text_beyond_ascii_at_characters() {
    let line = "GET /caf\u{e9}/\u{4e2d}?k\u{e9}y=\u{1f600} HTTP/1.1\r\n";
    let request = Request::from_byte_array(line.as_bytes()).unwrap();
    assert_eq!(request.path(), "/caf\u{e9}/\u{4e2d}");
    assert_eq!(
        request.query_string().unwrap().get("k\u{e9}y"),
        Some(&QueryStringValue::Single("\u{1f600}"))
    );
}

#[test]
fn splits_the_target_at_its_first_question_mark() {
    let request = Request::from_byte_array(b"GET /a?b?c HTTP/1.1\r").unwrap();
    assert_eq!(request.path(), "/a");
    assert_eq!(
        request.query_string().unwrap().get("b?c"),
        Some(&QueryStringValue::Single(""))
    );
    let request = Request::from_byte_array(b"GET /a? HTTP/1.1\r").unwrap();
    assert_eq!(request.path(), "/a");
    assert_eq!(
        request.query_string().unwrap().get(""),
        Some(&QueryStringValue::Single(""))
    );
}

#[test]
fn an_empty_token_counts_as_a_token() {
    // Two spaces after the method: the target is the empty text.
    let r = Request::from_byte_array(b"GET  / HTTP/1.1\r\n");
    assert_eq!(r.unwrap_err(), ParseError::InvalidProtocol);
}

#[test]
fn try_from_parses_as_from_byte_array_does() {
    let request = Request::try_from(&b"PUT /p HTTP/1.1\r\n"[..]).unwrap();
    assert_eq!(*request.method(), Method::PUT);
    assert_eq!(request.path(), "/p");
    let r = Request::try_from(&b"PUT /p"[..]);
    assert_eq!(r.unwrap_err(), ParseError::InvalidRequest);
}

#[test]
fn next_word_ends_at_a_space_or_a_carriage_return() {
    assert_eq!(get_next_word("GET / HTTP/1.1"), Some(("GET", "/ HTTP/1.1")));
    assert_eq!(get_next_word("HTTP/1.1\r\nHost"), Some(("HTTP/1.1", "\nHost")));
    assert_eq!(get_next_word(" x"), Some(("", "x")));
    assert_eq!(get_next_word("x "), Some(("x", "")));
    assert_eq!(get_next_word("\u{e9}\u{e9} \u{e9}"), Some(("\u{e9}\u{e9}", "\u{e9}")));
    assert_eq!(get_next_word("nothing"), None);
    assert_eq!(get_next_word("line\nfeed\tand-tab"), None);
    assert_eq!(get_next_word(""), None);
}

#[test]
fn every_method_has_its_name() {
    assert_eq!(Method::from_str("GET"), Ok(Method::GET));
    assert_eq!(Method::from_str("POST"), Ok(Method::POST));
    assert_eq!(Method::from_str("PUT"), Ok(Method::PUT));
    assert_eq!(Method::from_str("HEAD"), Ok(Method::HEAD));
    assert_eq!(Method::from_str("CONNECT"), Ok(Method::CONNECT));
    assert_eq!(Method::from_str("OPTIONS"), Ok(Method::OPTIONS));
    assert_eq!(Method::from_str("TRACE"), Ok(Method::TRACE));
    assert_eq!(Method::from_str("PATCH"), Ok(Method::PATCH));
    assert_eq!("PATCH".parse::<Method>(), Ok(Method::PATCH));
}

#[test]
fn method_names_are_case_sensitive_and_exact() {
    assert_eq!(Method::from_str("get"), Err(MethodError));
    assert_eq!(Method::from_str("Get"), Err(MethodError));
    assert_eq!(Method::from_str("GETS"), Err(MethodError));
    assert_eq!(Method::from_str("GE"), Err(MethodError));
    assert_eq!(Method::from_str("DELETE"), Err(MethodError));
    assert_eq!(Method::from_str(""), Err(MethodError));
}

#[test]
fn method_names_round_trip() {
    let all = [
        Method::GET,
        Method::POST,
        Method::PUT,
        Method::HEAD,
        Method::CONNECT,
        Method::OPTIONS,
        Method::TRACE,
        Method::PATCH,
    ];
    for m in all.iter() {
        assert_eq!(Method::from_str(m.as_str()), Ok(*m));
    }
}

#[test]
fn every_parse_error_has_its_message() {
    assert_eq!(ParseError::InvalidRequest.message(), "Invalid request");
    assert_eq!(ParseError::InvalidEncoding.message(), "Invalid encoding");
    assert_eq!(ParseError::InvalidProtocol.message(), "Invalid protocol");
    assert_eq!(ParseError::InvalidMethod.message(), "Invalid method");
}

#[test]
fn errors_convert_to_parse_errors() {
    assert_eq!(ParseError::from(MethodError), ParseError::InvalidMethod);
    let bad = [0xffu8];
    let e = std::str::from_utf8(&bad[..]).unwrap_err();
    assert_eq!(ParseError::from(e), ParseError::InvalidEncoding);
}
