use health_service::routes::health_check;
use health_service::telemetry::{
    header_to_str, http_flavor, user_agent, HttpVersion, RequestHead, RootSpan,
};
use pavex::http::StatusCode;
use pavex::response::Response;

fn head(method: &str, version: HttpVersion, ua: Option<&[u8]>, target: Option<&str>) -> RequestHead {
    RequestHead {
        method: method.to_string(),
        version,
        user_agent: ua.map(|b| b.to_vec()),
        path_and_query: target.map(|t| t.to_string()),
    }
}

#[test]
fn flavor_of_known_versions() {
    assert_eq!(http_flavor(&HttpVersion::Http09), "0.9");
    assert_eq!(http_flavor(&HttpVersion::Http10), "1.0");
    assert_eq!(http_flavor(&HttpVersion::Http11), "1.1");
    assert_eq!(http_flavor(&HttpVersion::Http2), "2.0");
    assert_eq!(http_flavor(&HttpVersion::Http3), "3.0");
}

#[test]
fn flavor_of_other_version_is_its_debug_text() {
    assert_eq!(http_flavor(&HttpVersion::Other("HTTP/4.2".to_string())), "HTTP/4.2");
}

#[test]
fn missing_user_agent_is_empty() {
    assert_eq!(user_agent(&None), "");
}

#[test]
fn user_agent_text_is_kept() {
    assert_eq!(user_agent(&Some(b"curl/8.5.0".to_vec())), "curl/8.5.0");
    assert_eq!(user_agent(&Some(b"a\tb".to_vec())), "a\tb");
}

#[test]
fn user_agent_not_text_is_empty() {
    assert_eq!(user_agent(&Some(vec![b'a', 0xC3, 0xA9])), "");
    assert_eq!(user_agent(&Some(vec![b'a', b'\n'])), "");
    assert_eq!(user_agent(&Some(vec![127])), "");
}

#[test]
fn header_to_str_reads_visible_ascii() {
    assert_eq!(header_to_str(&b"Mozilla/5.0 (X11)".to_vec()), Some("Mozilla/5.0 (X11)".to_string()));
    assert_eq!(header_to_str(&Vec::new()), Some(String::new()));
    assert_eq!(header_to_str(&vec![31]), None);
}

#[test]
fn new_span_records_request_fields() {
    let h = head("GET", HttpVersion::Http11, Some(b"probe/1.0"), Some("/users/7?full=true"));
    let span = RootSpan::new(tracing::Span::none(), &h, "/users/:id");
    let f = span.fields();
    assert_eq!(f.method, "GET");
    assert_eq!(f.flavor, "1.1");
    assert_eq!(f.user_agent, "probe/1.0");
    assert_eq!(f.route, "/users/:id");
    assert_eq!(f.target, "/users/7?full=true");
    assert_eq!(f.status_code, None);
}

#[test]
fn new_span_without_user_agent_or_target() {
    let h = head("POST", HttpVersion::Http2, None, None);
    let span = RootSpan::new(tracing::Span::none(), &h, "/health");
    assert_eq!(span.fields().user_agent, "");
    assert_eq!(span.fields().target, "");
    assert_eq!(span.fields().flavor, "2.0");
}

#[test]
fn status_is_recorded_once() {
    let h = head("GET", HttpVersion::Http10, None, Some("/"));
    let mut span = RootSpan::new(tracing::Span::none(), &h, "/");
    span.record_status(503);
    assert_eq!(span.fields().status_code, Some(503));
    span.record_status(200);
    assert_eq!(span.fields().status_code, Some(200));
    assert_eq!(span.fields().method, "GET");
}

#[test]
fn response_status_is_recorded() {
    let h = head("GET", HttpVersion::Http11, None, Some("/missing"));
    let mut span = RootSpan::new(tracing::Span::none(), &h, "/missing");
    span.record_response_data(&Response::new(StatusCode::NOT_FOUND));
    assert_eq!(span.fields().status_code, Some(404));
    span.record_response_data(&Response::new(StatusCode::OK));
    assert_eq!(span.fields().status_code, Some(200));
}

#[test]
fn concurrent_spans_are_independent() {
    let a = head("GET", HttpVersion::Http11, Some(b"client-a"), Some("/a?x=1"));
    let b = head("DELETE", HttpVersion::Http3, Some(b"client-b"), Some("/b"));
    let mut span_a = RootSpan::new(tracing::Span::none(), &a, "/a");
    let mut span_b = RootSpan::new(tracing::Span::none(), &b, "/b");
    span_a.record_status(201);
    span_b.record_status(500);
    assert_eq!(span_a.fields().method, "GET");
    assert_eq!(span_a.fields().user_agent, "client-a");
    assert_eq!(span_a.fields().route, "/a");
    assert_eq!(span_a.fields().target, "/a?x=1");
    assert_eq!(span_a.fields().status_code, Some(201));
    assert_eq!(span_b.fields().method, "DELETE");
    assert_eq!(span_b.fields().flavor, "3.0");
    assert_eq!(span_b.fields().user_agent, "client-b");
    assert_eq!(span_b.fields().route, "/b");
    assert_eq!(span_b.fields().target, "/b");
    assert_eq!(span_b.fields().status_code, Some(500));
}

#[test]
fn inner_and_into_inner_give_the_span() {
    let h = head("GET", HttpVersion::Http11, None, None);
    let span = RootSpan::new(tracing::Span::none(), &h, "/");
    assert!(span.inner().is_none());
    assert!(span.into_inner().is_none());
}

#[test]
fn health_check_is_ok_every_time() {
    assert_eq!(health_check(), 200);
    assert_eq!(health_check(), 200);
}
