use http_client::grammar::{parse_header_line, parse_status_line};
use http_client::response::parse_response;
use http_client::{LineSource, RequestError, Response};

fn lines(raw: &[&str]) -> Vec<String> {
    raw.iter().map(|line| line.to_string()).collect()
}

#[test]
fn status_line_gives_version_and_code() {
    let status = parse_status_line("HTTP/1.1 200 OK").unwrap();
    assert_eq!(status.version, "HTTP/1.1");
    assert_eq!(status.status_code, "200");
}

#[test]
fn status_line_needs_no_reason_phrase() {
    let status = parse_status_line("HTTP/2.0 404").unwrap();
    assert_eq!(status.version, "HTTP/2.0");
    assert_eq!(status.status_code, "404");
}

#[test]
fn status_line_takes_three_digits_of_a_longer_number() {
    let status = parse_status_line("HTTP/1.0 2000").unwrap();
    assert_eq!(status.status_code, "200");
}

#[test]
fn status_line_of_another_shape_is_refused() {
    for line in [
        "",
        "HTTP/1.1",
        "HTTP/1.1 20",
        "HTTP/3.1 200 OK",
        "HTTP/0.9 200 OK",
        "HTTP/1x1 200 OK",
        "HTTP/1.a 200 OK",
        "HTTP/1.1\t200 OK",
        "HTTP/1.1  200 OK",
        "HTTP/1.1 2x0 OK",
        "http/1.1 200 OK",
        " HTTP/1.1 200 OK",
        "ICY 200 OK",
        "HTTP/1.1 ２００ OK",
    ] {
        assert_eq!(
            parse_status_line(line).unwrap_err(),
            RequestError::MalformedStatusLine,
            "{:?}",
            line
        );
    }
}

#[test]
fn status_line_may_hold_any_characters_after_the_code() {
    let status = parse_status_line("HTTP/1.1 500 Ärger – ja").unwrap();
    assert_eq!(status.version, "HTTP/1.1");
    assert_eq!(status.status_code, "500");
}

#[test]
fn header_line_is_split_at_the_first_colon() {
    assert_eq!(parse_header_line("X: 1").unwrap(), ("X".to_string(), "1".to_string()));
    assert_eq!(
        parse_header_line("Content-Type: text/html; charset=utf-8").unwrap(),
        ("Content-Type".to_string(), "text/html; charset=utf-8".to_string())
    );
}

#[test]
fn header_value_keeps_later_colons() {
    assert_eq!(
        parse_header_line("Location: http://h2/new").unwrap(),
        ("Location".to_string(), "http://h2/new".to_string())
    );
    assert_eq!(
        parse_header_line("Date: Mon, 27 Jul 2009 12:28:53 GMT").unwrap(),
        ("Date".to_string(), "Mon, 27 Jul 2009 12:28:53 GMT".to_string())
    );
}

#[test]
fn header_value_keeps_further_spaces() {
    assert_eq!(parse_header_line("X:  1 ").unwrap(), ("X".to_string(), " 1 ".to_string()));
}

#[test]
fn header_line_with_wide_characters_is_split_by_characters() {
    assert_eq!(
        parse_header_line("Grüße: wörld ✓").unwrap(),
        ("Grüße".to_string(), "wörld ✓".to_string())
    );
}

#[test]
fn header_line_of_another_shape_is_refused() {
    for line in ["", "X", "X:", "X: ", "X:1", ": 1", ":", "X :1", "a:b: c", "X:\t1"] {
        assert_eq!(
            parse_header_line(line).unwrap_err(),
            RequestError::MalformedHeader,
            "{:?}",
            line
        );
    }
}

#[test]
fn response_is_decoded_from_its_lines() {
    let response = parse_response(&lines(&[
        "HTTP/1.1 200 OK",
        "Content-Type: text/plain",
        "Content-Length: 5",
        "",
        "hello",
    ]))
    .unwrap();
    assert_eq!(response.version, "HTTP/1.1");
    assert_eq!(response.status_code, "200");
    assert_eq!(response.headers.len(), 2);
    assert_eq!(response.headers.get("Content-Type"), Some(&"text/plain".to_string()));
    assert_eq!(response.headers.get("Content-Length"), Some(&"5".to_string()));
    assert_eq!(response.body, "hello");
}

#[test]
fn later_header_overrides_earlier() {
    let response = parse_response(&lines(&["HTTP/1.1 200 OK", "X: 1", "X: 2"])).unwrap();
    assert_eq!(response.headers.len(), 1);
    assert_eq!(response.headers.get("X"), Some(&"2".to_string()));
}

#[test]
fn header_keys_differ_by_case() {
    let response = parse_response(&lines(&["HTTP/1.1 200 OK", "x: 1", "X: 2", ""])).unwrap();
    assert_eq!(response.headers.len(), 2);
    assert_eq!(response.headers.get("x"), Some(&"1".to_string()));
    assert_eq!(response.headers.get("X"), Some(&"2".to_string()));
}

#[test]
fn body_lines_are_joined_by_line_feeds() {
    let response =
        parse_response(&lines(&["HTTP/1.1 200 OK", "X: 1", "", "foo", "", "bar"])).unwrap();
    assert_eq!(response.body, "foo\n\nbar");
}

#[test]
fn body_without_lines_is_empty() {
    let response = parse_response(&lines(&["HTTP/1.1 204 No Content", "X: 1", ""])).unwrap();
    assert_eq!(response.body, "");
    let response = parse_response(&lines(&["HTTP/1.1 204 No Content", "X: 1"])).unwrap();
    assert_eq!(response.body, "");
    let response = parse_response(&lines(&["HTTP/1.1 204 No Content"])).unwrap();
    assert_eq!(response.body, "");
    assert!(response.headers.is_empty());
}

#[test]
fn body_keeps_empty_lines_at_its_ends() {
    let response = parse_response(&lines(&["HTTP/1.1 200 OK", "", "", "a", ""])).unwrap();
    assert_eq!(response.body, "\na\n");
    let response = parse_response(&lines(&["HTTP/1.1 200 OK", "", ""])).unwrap();
    assert_eq!(response.body, "");
    let response = parse_response(&lines(&["HTTP/1.1 200 OK", "", "", ""])).unwrap();
    assert_eq!(response.body, "\n");
}

#[test]
fn body_lines_are_not_read_as_headers() {
    let response =
        parse_response(&lines(&["HTTP/1.1 200 OK", "", "no header here", "X: 1"])).unwrap();
    assert!(response.headers.is_empty());
    assert_eq!(response.body, "no header here\nX: 1");
}

#[test]
fn no_lines_are_no_response() {
    assert_eq!(parse_response(&Vec::new()).unwrap_err(), RequestError::EmptyResponse);
}

#[test]
fn bad_first_line_fails_the_response() {
    assert_eq!(
        parse_response(&lines(&["", "HTTP/1.1 200 OK"])).unwrap_err(),
        RequestError::MalformedStatusLine
    );
    assert_eq!(
        parse_response(&lines(&["X: 1", "", "body"])).unwrap_err(),
        RequestError::MalformedStatusLine
    );
}

#[test]
fn bad_header_line_fails_the_response() {
    assert_eq!(
        parse_response(&lines(&["HTTP/1.1 200 OK", "X: 1", "broken", "", "body"])).unwrap_err(),
        RequestError::MalformedHeader
    );
    assert_eq!(
        parse_response(&lines(&["HTTP/1.1 200 OK", "X: 1", "Y:"])).unwrap_err(),
        RequestError::MalformedHeader
    );
}

#[test]
fn fresh_source_is_read_to_its_end() {
    let mut source = LineSource::new(lines(&["HTTP/1.1 200 OK", "X: 1", "", "foo", "bar"]));
    assert!(source.is_fresh());
    let response = Response::read_from(&mut source).unwrap();
    assert_eq!(response.status_code, "200");
    assert_eq!(response.body, "foo\nbar");
    assert!(!source.is_fresh());
    assert_eq!(source.read_line(), None);
}

#[test]
fn source_hands_out_lines_in_order() {
    let mut source = LineSource::new(lines(&["a", "", "b"]));
    assert_eq!(source.read_line(), Some("a".to_string()));
    assert_eq!(source.read_line(), Some("".to_string()));
    assert_eq!(source.read_line(), Some("b".to_string()));
    assert_eq!(source.read_line(), None);
    assert_eq!(source.read_line(), None);
}

#[test]
fn source_that_was_read_from_is_refused() {
    let mut source = LineSource::new(lines(&["HTTP/1.1 200 OK", "X: 1", "", "foo"]));
    assert_eq!(source.read_line(), Some("HTTP/1.1 200 OK".to_string()));
    assert_eq!(Response::read_from(&mut source).unwrap_err(), RequestError::StaleSource);
    assert_eq!(source.read_line(), Some("X: 1".to_string()));
}

#[test]
fn failed_decoding_still_takes_the_source_to_its_end() {
    let mut source = LineSource::new(lines(&["nonsense", "X: 1"]));
    assert_eq!(
        Response::read_from(&mut source).unwrap_err(),
        RequestError::MalformedStatusLine
    );
    assert_eq!(source.read_line(), None);
}

#[test]
fn empty_source_is_fresh_and_gives_no_response() {
    let mut source = LineSource::new(Vec::new());
    assert!(source.is_fresh());
    assert_eq!(Response::read_from(&mut source).unwrap_err(), RequestError::EmptyResponse);
}
