use http_client::grammar::{parse_header_line, parse_status_line};
use http_client::wire::render_headers;
use http_client::StringMap;

fn status_by_pattern(line: &str) -> Option<(String, String)> {
    let pattern = regex::Regex::new(r"^(?P<version>HTTP/[1-2]\.[0-9]) (?P<code>[0-9]{3})").unwrap();
    let caps = pattern.captures(line)?;
    Some((caps["version"].to_string(), caps["code"].to_string()))
}

fn header_by_pattern(line: &str) -> Option<(String, String)> {
    let pattern = regex::Regex::new(r"(?s)^(?P<key>[^:]+): (?P<value>.+)$").unwrap();
    let caps = pattern.captures(line)?;
    Some((caps["key"].to_string(), caps["value"].to_string()))
}

#[test]
fn status_grammar_agrees_with_its_regular_expression() {
    for line in [
        "HTTP/1.1 200 OK",
        "HTTP/1.0 301 Moved Permanently",
        "HTTP/2.0 404",
        "HTTP/2.9 9999",
        "HTTP/1.1 200",
        "HTTP/1.1 20",
        "HTTP/3.0 200 OK",
        "HTTP/1.1200 OK",
        "HTTP/1,1 200 OK",
        "xHTTP/1.1 200 OK",
        "HTTP/1.1 200\tOK",
        "",
    ] {
        let ours = parse_status_line(line).ok().map(|s| (s.version, s.status_code));
        assert_eq!(ours, status_by_pattern(line), "{:?}", line);
    }
}

#[test]
fn header_grammar_agrees_with_its_regular_expression() {
    for line in [
        "X: 1",
        "Location: http://h2/new",
        "Server: nginx/1.18.0 (Ubuntu)",
        "Set-Cookie: a=b; Path=/; Expires=Wed, 21 Oct 2015 07:28:00 GMT",
        "X:  padded ",
        "X:1",
        "X: ",
        "X:",
        ": v",
        "no colon",
        "a:b: c",
        "",
    ] {
        let ours = parse_header_line(line).ok();
        assert_eq!(ours, header_by_pattern(line), "{:?}", line);
    }
}

#[test]
fn rendered_headers_are_read_back() {
    let pairs = [
        ("Accept", "text/html, */*;q=0.8"),
        ("X-Time", "12:30:00"),
        ("Connection", "close"),
        ("x", " y"),
    ];
    let mut fields = StringMap::new();
    for (key, value) in pairs {
        fields.insert(key.to_string(), value.to_string());
    }
    let block = render_headers(&Some(fields));
    let read: Vec<(String, String)> = block
        .split_terminator("\r\n")
        .map(|line| parse_header_line(line).unwrap())
        .collect();
    let written: Vec<(String, String)> =
        pairs.iter().map(|(key, value)| (key.to_string(), value.to_string())).collect();
    assert_eq!(read, written);
}

#[test]
fn added_connection_line_is_read_back() {
    let block = render_headers(&None);
    let line = block.strip_suffix("\r\n").unwrap();
    assert_eq!(
        parse_header_line(line).unwrap(),
        ("Connection".to_string(), "keep-closed".to_string())
    );
}
