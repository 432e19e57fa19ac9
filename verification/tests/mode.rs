use realm::mode::query_parameter;
use realm::{Mode, Request};

fn request(query: Option<&str>) -> Request {
    Request {
        method: "GET".to_string(),
        path: "/".to_string(),
        query: query.map(|q| q.to_string()),
        headers: vec![("accept".to_string(), "*/*".to_string())],
        body: vec![],
    }
}

#[test]
fn no_query_is_html() {
    assert_eq!(Mode::detect(&request(None)), Mode::HTML);
}

#[test]
fn empty_query_is_html() {
    assert_eq!(Mode::detect(&request(Some(""))), Mode::HTML);
}

#[test]
fn api_and_layout_are_asked_for_by_name() {
    assert_eq!(Mode::detect(&request(Some("realm_mode=api"))), Mode::API);
    assert_eq!(Mode::detect(&request(Some("realm_mode=layout"))), Mode::Layout);
    assert_eq!(Mode::detect(&request(Some("page=2&realm_mode=api&x=y"))), Mode::API);
    assert_eq!(Mode::detect(&request(Some("page=2&realm_mode=layout"))), Mode::Layout);
}

#[test]
fn unknown_signals_are_html() {
    for query in [
        "realm_mode=html",
        "realm_mode=",
        "realm_mode",
        "realm_mode=API",
        "realm_mode=api ",
        "realm_mode=apis",
        "realm_mode=lay",
        "realm_mode=%61pi",
        "mode=api",
        "xrealm_mode=api",
        "realm_mode_=api",
        "a=realm_mode=api",
        "&",
        "=api",
    ] {
        assert_eq!(Mode::detect(&request(Some(query))), Mode::HTML, "{}", query);
    }
}

#[test]
fn first_signal_counts() {
    assert_eq!(Mode::detect(&request(Some("realm_mode=api&realm_mode=layout"))), Mode::API);
    assert_eq!(Mode::detect(&request(Some("realm_mode=x&realm_mode=api"))), Mode::HTML);
}

#[test]
fn detection_reads_the_query_only() {
    let mut req = request(Some("realm_mode=layout"));
    req.method = "POST".into();
    req.path = "/realm_mode=api".into();
    req.headers.push(("realm_mode".into(), "api".into()));
    req.body = b"realm_mode=api".to_vec();
    assert_eq!(Mode::detect(&req), Mode::Layout);
}

#[test]
fn content_types() {
    assert_eq!(Mode::API.content_type(), "application/json");
    assert_eq!(Mode::Layout.content_type(), "application/json");
    assert_eq!(Mode::HTML.content_type(), "text/html");
}

#[test]
fn parameters_of_a_query() {
    assert_eq!(query_parameter("a=1&b=2", "a"), Some("1".to_string()));
    assert_eq!(query_parameter("a=1&b=2", "b"), Some("2".to_string()));
    assert_eq!(query_parameter("a=1&b=2", "c"), None);
    assert_eq!(query_parameter("a=1&a=2", "a"), Some("1".to_string()));
    assert_eq!(query_parameter("a", "a"), Some("".to_string()));
    assert_eq!(query_parameter("a=", "a"), Some("".to_string()));
    assert_eq!(query_parameter("a=b=c", "a"), Some("b=c".to_string()));
    assert_eq!(query_parameter("", "a"), None);
    assert_eq!(query_parameter("", ""), Some("".to_string()));
    assert_eq!(query_parameter("&a=1", "a"), Some("1".to_string()));
    assert_eq!(query_parameter("x&&a=1&", "a"), Some("1".to_string()));
    assert_eq!(query_parameter("=v", ""), Some("v".to_string()));
    assert_eq!(query_parameter("ä=ö&b=ü", "b"), Some("ü".to_string()));
    assert_eq!(query_parameter("ä=ö&b=ü", "ä"), Some("ö".to_string()));
}
