use http::{HeaderMap, HeaderValue};
use komoju_datadog::context::{extract_context, inject_context, merge_contexts, TraceContext};
use komoju_datadog::http_utils::attach_tracing_headers;

#[test]
fn absent_headers_give_empty_context() {
    let ctx = extract_context(&HeaderMap::new());
    assert!(ctx.is_empty());
}

#[test]
fn garbage_headers_give_empty_context() {
    for v in ["nonsense", "00-zz-zz-01", "01-00000000000000000000000000000001-0000000000000001-01", ""] {
        let mut h = HeaderMap::new();
        h.insert("traceparent", HeaderValue::from_str(v).unwrap());
        assert!(extract_context(&h).is_empty());
    }
}

#[test]
fn valid_traceparent_is_read() {
    let mut h = HeaderMap::new();
    h.insert(
        "traceparent",
        HeaderValue::from_static("00-0000000000000000000000000000002a-0000000000000007-01"),
    );
    let ctx = extract_context(&h);
    assert_eq!(ctx, TraceContext { trace_id: 42, parent_id: 7 });
}

#[test]
fn empty_context_writes_nothing() {
    let mut h = HeaderMap::new();
    inject_context(&mut h, TraceContext { trace_id: 0, parent_id: 0 });
    inject_context(&mut h, TraceContext { trace_id: 5, parent_id: 0 });
    assert!(h.is_empty());
}

#[test]
fn no_current_span_attaches_nothing() {
    let mut h = HeaderMap::new();
    attach_tracing_headers(&mut h);
    assert!(h.is_empty());
}

#[test]
fn context_round_trips_through_headers() {
    let ctx = TraceContext { trace_id: 0x1234, parent_id: 0x99 };
    let mut h = HeaderMap::new();
    inject_context(&mut h, ctx);
    assert_eq!(
        h.get("traceparent").unwrap(),
        "00-00000000000000000000000000001234-0000000000000099-01"
    );
    assert_eq!(h.get("x-datadog-trace-id").unwrap(), "4660");
    assert_eq!(h.get("x-datadog-parent-id").unwrap(), "153");
    assert_eq!(h.get("x-datadog-sampling-priority").unwrap(), "1");
    assert_eq!(extract_context(&h), ctx);
}

#[test]
fn datadog_headers_are_read_without_traceparent() {
    let mut h = HeaderMap::new();
    h.insert("x-datadog-trace-id", HeaderValue::from_static("11"));
    h.insert("x-datadog-parent-id", HeaderValue::from_static("22"));
    h.insert("x-datadog-sampling-priority", HeaderValue::from_static("1"));
    assert_eq!(extract_context(&h), TraceContext { trace_id: 11, parent_id: 22 });
}

#[test]
fn traceparent_wins_over_datadog_headers() {
    let mut h = HeaderMap::new();
    h.insert("x-datadog-trace-id", HeaderValue::from_static("11"));
    h.insert("x-datadog-parent-id", HeaderValue::from_static("22"));
    h.insert("x-datadog-sampling-priority", HeaderValue::from_static("1"));
    h.insert(
        "traceparent",
        HeaderValue::from_static("00-0000000000000000000000000000002a-0000000000000007-01"),
    );
    assert_eq!(extract_context(&h), TraceContext { trace_id: 42, parent_id: 7 });
}

#[test]
fn merge_prefers_a_context_that_names_a_trace() {
    let empty = TraceContext { trace_id: 0, parent_id: 9 };
    let w3c = TraceContext { trace_id: 1, parent_id: 2 };
    let dd = TraceContext { trace_id: 3, parent_id: 4 };
    assert_eq!(merge_contexts(w3c, dd), w3c);
    assert_eq!(merge_contexts(empty, dd), dd);
    assert_eq!(merge_contexts(w3c, empty), w3c);
    assert!(merge_contexts(empty, TraceContext { trace_id: 0, parent_id: 0 }).is_empty());
}

#[test]
fn injection_keeps_other_headers() {
    let mut h = HeaderMap::new();
    h.insert("accept", HeaderValue::from_static("text/plain"));
    h.append("x-custom", HeaderValue::from_static("a"));
    h.append("x-custom", HeaderValue::from_static("b"));
    h.insert("traceparent", HeaderValue::from_static("old"));
    let ctx = TraceContext { trace_id: (5u128 << 64) | 6, parent_id: 7 };
    inject_context(&mut h, ctx);
    assert_eq!(h.get("accept").unwrap(), "text/plain");
    let custom: Vec<_> = h.get_all("x-custom").iter().collect();
    assert_eq!(custom, vec!["a", "b"]);
    assert_eq!(h.get_all("traceparent").iter().count(), 1);
    assert_eq!(
        h.get("traceparent").unwrap(),
        "00-00000000000000050000000000000006-0000000000000007-01"
    );
    assert_eq!(h.get("x-datadog-trace-id").unwrap(), "6");
    assert_eq!(h.get("x-datadog-tags").unwrap(), "_dd.p.tid=0000000000000005");
    assert_eq!(h.keys_len(), 7);
    assert_eq!(extract_context(&h), ctx);
}

#[test]
fn unsampled_traceparent_gives_empty_context() {
    let mut h = HeaderMap::new();
    h.insert(
        "traceparent",
        HeaderValue::from_static("00-0000000000000000000000000000002a-0000000000000007-00"),
    );
    assert!(extract_context(&h).is_empty());
}

#[test]
fn full_map_is_left_alone() {
    let mut h = HeaderMap::new();
    for i in 0..6500 {
        let name = http::HeaderName::from_bytes(format!("x-h{i}").as_bytes()).unwrap();
        h.insert(name, HeaderValue::from_static("v"));
    }
    inject_context(&mut h, TraceContext { trace_id: 1, parent_id: 2 });
    assert_eq!(h.keys_len(), 6500);
    assert!(h.get("traceparent").is_none());
}
