use http_client::HttpMethod;

#[test]
fn method_tokens_are_upper_case() {
    assert_eq!(HttpMethod::GET.to_string(), "GET");
    assert_eq!(HttpMethod::POST.to_string(), "POST");
    assert_eq!(HttpMethod::PUT.to_string(), "PUT");
    assert_eq!(HttpMethod::DELETE.to_string(), "DELETE");
}

#[test]
fn method_as_str_matches_to_string() {
    for method in [HttpMethod::GET, HttpMethod::POST, HttpMethod::PUT, HttpMethod::DELETE] {
        assert_eq!(method.as_str(), method.to_string());
    }
}

#[test]
fn method_is_read_back_from_its_token() {
    assert_eq!(HttpMethod::from_tag("GET"), Some(HttpMethod::GET));
    assert_eq!(HttpMethod::from_tag("POST"), Some(HttpMethod::POST));
    assert_eq!(HttpMethod::from_tag("PUT"), Some(HttpMethod::PUT));
    assert_eq!(HttpMethod::from_tag("DELETE"), Some(HttpMethod::DELETE));
}

#[test]
fn method_tokens_are_matched_exactly() {
    assert_eq!(HttpMethod::from_tag("get"), None);
    assert_eq!(HttpMethod::from_tag(""), None);
    assert_eq!(HttpMethod::from_tag("GET "), None);
    assert_eq!(HttpMethod::from_tag("PATCH"), None);
}
