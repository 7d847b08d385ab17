use komoju_datadog::context::TraceContext;
use komoju_datadog::span::{
    http_route, make_span_from_request, record_route, update_span_from_error,
    update_span_from_response, update_span_from_response_or_error, Action, Event, HttpVersion,
    Outcome, Phase, RequestMeta, SpanLifecycle,
};

fn request(path: &str, route: Option<&str>) -> RequestMeta {
    RequestMeta {
        method: "GET".to_string(),
        path: path.to_string(),
        uri_host: None,
        scheme: None,
        version: HttpVersion::Http11,
        host_header: Some("example.com".to_string()),
        user_agent: Some("curl/8".to_string()),
        forwarded_for: None,
        request_id: Some("req-1".to_string()),
        peer_ip: Some("10.0.0.1".to_string()),
        matched_route: route.map(|r| r.to_string()),
        parent: TraceContext { trace_id: 0, parent_id: 0 },
    }
}

#[test]
fn span_from_request_fills_schema() {
    let s = make_span_from_request(&request("/merchants/123", None));
    assert_eq!(s.name, "HTTP request");
    assert_eq!(s.operation, "axum.request");
    assert_eq!(s.resource, "GET /merchants/?");
    assert_eq!(s.method, "GET");
    assert_eq!(s.url, "/merchants/123");
    assert_eq!(s.base_url.as_deref(), Some("example.com"));
    assert_eq!(s.useragent.as_deref(), Some("curl/8"));
    assert_eq!(s.client_ip.as_deref(), Some("10.0.0.1"));
    assert_eq!(s.request_id.as_deref(), Some("req-1"));
    assert_eq!(s.protocol_version, "1.1");
    assert_eq!(s.kind, "server");
    assert_eq!(s.span_type, "web");
    assert_eq!(s.route, None);
    assert_eq!(s.status_code, None);
    assert_eq!(s.error_type, None);
    assert_eq!(s.parent, None);
    let r = &s.reserved;
    for slot in [
        &r.request_id, &r.auth_method, &r.auth_user_uuid, &r.auth_merchant_uuid,
        &r.auth_account_uuid, &r.auth_role, &r.auth_api_version, &r.usr_id, &r.usr_email,
        &r.usr_session_id, &r.usr_role, &r.usr_merchant, &r.usr_account,
    ] {
        assert_eq!(*slot, None);
    }
}

#[test]
fn forwarded_for_and_uri_host_fallbacks() {
    let mut r = request("/", None);
    r.forwarded_for = Some("1.2.3.4".to_string());
    r.host_header = None;
    r.uri_host = Some("h.example".to_string());
    r.version = HttpVersion::Other;
    r.parent = TraceContext { trace_id: 3, parent_id: 4 };
    let s = make_span_from_request(&r);
    assert_eq!(s.client_ip.as_deref(), Some("1.2.3.4"));
    assert_eq!(s.base_url.as_deref(), Some("h.example"));
    assert_eq!(s.server_address.as_deref(), Some("h.example"));
    assert_eq!(s.protocol_version, "");
    assert_eq!(s.parent, Some(TraceContext { trace_id: 3, parent_id: 4 }));
}

#[test]
fn matched_route_names_resource() {
    let r = request("/merchants/123", Some("/merchants/{id}"));
    assert_eq!(http_route(&r), "/merchants/{id}");
    assert_eq!(http_route(&request("/x", None)), "");
    let mut s = make_span_from_request(&r);
    record_route(&mut s, "GET", http_route(&r));
    assert_eq!(s.resource, "GET /merchants/{id}");
    assert_eq!(s.route.as_deref(), Some("/merchants/{id}"));
}

#[test]
fn empty_route_keeps_templated_resource() {
    let mut s = make_span_from_request(&request("/a/1", None));
    record_route(&mut s, "GET", "");
    assert_eq!(s.resource, "GET /a/?");
    assert_eq!(s.route, None);
}

#[test]
fn route_resource_is_trimmed() {
    let mut s = make_span_from_request(&request("/a", None));
    record_route(&mut s, "", "/x ");
    assert_eq!(s.resource, "/x");
}

#[test]
fn status_and_errors_are_recorded() {
    let mut s = make_span_from_request(&request("/", None));
    update_span_from_response(&mut s, 204);
    assert_eq!(s.status_code, Some(204));
    let mut s = make_span_from_request(&request("/", None));
    update_span_from_error(&mut s, "boom".to_string(), None);
    assert_eq!(s.otel_status_code.as_deref(), Some("ERROR"));
    assert_eq!(s.error_type.as_deref(), Some("boom"));
    assert_eq!(s.error_message, None);
    let mut s = make_span_from_request(&request("/", None));
    update_span_from_response_or_error(
        &mut s,
        Outcome::Failure { description: "boom".to_string(), cause: Some("disk".to_string()) },
    );
    assert_eq!(s.error_message.as_deref(), Some("disk"));
}

#[test]
fn finalized_once_on_success() {
    let mut l = SpanLifecycle::new();
    assert_eq!(l.phase(), Phase::Idle);
    assert_eq!(l.step(Event::Request(request("/p/1", None))), Action::Open);
    assert_eq!(l.phase(), Phase::Active);
    assert_eq!(l.finalizations(), 0);
    assert_eq!(l.step(Event::Completed(Outcome::Response { status: 201 })), Action::Close);
    assert_eq!(l.finalizations(), 1);
    assert_eq!(l.step(Event::Completed(Outcome::Response { status: 500 })), Action::Ignore);
    assert_eq!(l.step(Event::Request(request("/q", None))), Action::Ignore);
    assert_eq!(l.finalizations(), 1);
    assert_eq!(l.phase(), Phase::Finalized);
    assert_eq!(l.span().unwrap().status_code, Some(201));
}

#[test]
fn finalized_once_on_failure() {
    let mut l = SpanLifecycle::new();
    assert_eq!(l.step(Event::Completed(Outcome::Response { status: 200 })), Action::Ignore);
    assert_eq!(l.finalizations(), 0);
    l.step(Event::Request(request("/p/1", Some("/p/{id}"))));
    let outcome = Outcome::Failure { description: "timeout".to_string(), cause: None };
    assert_eq!(l.step(Event::Completed(outcome)), Action::Close);
    assert_eq!(l.finalizations(), 1);
    let s = l.span().unwrap();
    assert_eq!(s.resource, "GET /p/{id}");
    assert_eq!(s.error_type.as_deref(), Some("timeout"));
    assert_eq!(s.status_code, None);
}

#[derive(Debug, PartialEq)]
struct HandlerError(u32);

#[test]
fn complete_passes_error_through() {
    let mut l = SpanLifecycle::new();
    l.step(Event::Request(request("/", None)));
    let result: Result<u8, HandlerError> = Err(HandlerError(17));
    let outcome = Outcome::Failure { description: "HandlerError(17)".to_string(), cause: None };
    let back = l.complete(result, outcome);
    assert_eq!(back, Err(HandlerError(17)));
    assert_eq!(l.finalizations(), 1);
    let s = l.span().unwrap();
    assert!(s.otel_status_code.as_deref().is_some_and(|v| !v.is_empty()));
    assert!(s.error_type.as_deref().is_some_and(|v| !v.is_empty()));
}

#[test]
fn complete_records_actual_status() {
    let mut l = SpanLifecycle::new();
    l.step(Event::Request(request("/", None)));
    let back: Result<&str, HandlerError> = l.complete(Ok("body"), Outcome::Response { status: 418 });
    assert_eq!(back, Ok("body"));
    assert_eq!(l.span().unwrap().status_code, Some(418));
}

#[test]
fn cancelled_handler_is_finalized_as_failure() {
    let mut l = SpanLifecycle::new();
    assert_eq!(l.cancel(), Action::Ignore);
    l.step(Event::Request(request("/", None)));
    assert_eq!(l.cancel(), Action::Close);
    assert_eq!(l.finalizations(), 1);
    let s = l.span().unwrap();
    assert_eq!(s.otel_status_code.as_deref(), Some("ERROR"));
    assert_eq!(s.error_type.as_deref(), Some("request cancelled"));
    assert_eq!(l.cancel(), Action::Ignore);
    assert_eq!(l.finalizations(), 1);
}

#[test]
fn route_with_unicode_whitespace_is_trimmed() {
    let mut s = make_span_from_request(&request("/a", None));
    record_route(&mut s, "\u{3000}", "/y\u{2003}\t");
    assert_eq!(s.resource, "/y");
}
