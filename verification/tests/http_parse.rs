use itj_tiny_deps::http::{get_header_value, parse_curl_response, CurlParseError, Curl, HttpHeader};

fn header(name: &str, value: &str) -> HttpHeader {
    HttpHeader { name: name.to_string(), value: value.to_string() }
}

#[test]
fn curl_output_is_split_into_headers_and_body() {
    let out = b"HTTP/2 200\r\ncontent-type: text/html\r\nx-a: b\r\n\r\n<html>\r\n\r\nrest";
    let r = parse_curl_response(out).unwrap();
    assert_eq!(r.body, "<html>\r\n\r\nrest".to_string());
    assert_eq!(r.headers, vec![header("content-type", "text/html"), header("x-a", "b")]);
}

#[test]
fn curl_output_with_only_a_status_line() {
    let r = parse_curl_response(b"HTTP/2 204\r\n\r\n").unwrap();
    assert_eq!(r.body, "".to_string());
    assert!(r.headers.is_empty());
}

#[test]
fn curl_output_errors() {
    assert_eq!(parse_curl_response(b"HTTP/2 200\r\nno end"), Err(CurlParseError::MissingHeaderEnd));
    assert_eq!(parse_curl_response(&[0xff, 0xfe]), Err(CurlParseError::NotUtf8));
    assert_eq!(
        parse_curl_response(b"HTTP/2 200\r\nbroken header\r\n\r\nbody"),
        Err(CurlParseError::MalformedHeader)
    );
    assert_eq!(
        parse_curl_response(b"HTTP/2 200\r\nname:\r\n\r\nbody"),
        Err(CurlParseError::MalformedHeader)
    );
}

#[test]
fn curl_header_value_may_be_empty_and_keep_colons() {
    let r = parse_curl_response(b"HTTP/2 200\r\nempty: \r\nurl: http://x\r\n\r\n").unwrap();
    assert_eq!(r.headers, vec![header("empty", ""), header("url", "http://x")]);
}

#[test]
fn header_lookup_takes_the_first_match() {
    let headers = vec![header("a", "1"), header("b", "2"), header("a", "3")];
    assert_eq!(get_header_value(&headers, "a"), Some("1"));
    assert_eq!(get_header_value(&headers, "b"), Some("2"));
    assert_eq!(get_header_value(&headers, "c"), None);
    assert_eq!(get_header_value(&headers, "A"), None);
}

#[test]
fn curl_command_line() {
    let c = Curl::new("agent/1.0");
    assert_eq!(
        c.command_args("http://example.com"),
        vec![
            "--silent".to_string(),
            "--dump-header".to_string(),
            "-".to_string(),
            "--header".to_string(),
            "User-Agent: agent/1.0".to_string(),
            "http://example.com".to_string(),
        ]
    );
}
