use komoju_datadog::config::{ConfigEnv, Config};
use komoju_datadog::statsd::statsd_settings;
use komoju_datadog::tracer::{pod_uid, tracer_settings};

fn no_vars() -> ConfigEnv {
    ConfigEnv { service: None, env: None, version: None, trace_agent_url: None, metrics_agent_url: None }
}

#[test]
fn defaults_without_variables() {
    let c = Config::builder(no_vars()).build();
    assert_eq!(c.service, "unknown");
    assert_eq!(c.env, "development");
    assert_eq!(c.version, "unknown");
    assert_eq!(c.trace_agent_url, None);
    assert_eq!(c.metrics_agent_url, "localhost:8125");
}

#[test]
fn variables_override_defaults() {
    let vars = ConfigEnv {
        service: Some("svc".to_string()),
        env: Some("production".to_string()),
        version: Some("1.2.3".to_string()),
        trace_agent_url: Some("http://agent:8126".to_string()),
        metrics_agent_url: Some("agent:8125".to_string()),
    };
    let c = Config::builder(vars).build();
    assert_eq!(c.service, "svc");
    assert_eq!(c.env, "production");
    assert_eq!(c.version, "1.2.3");
    assert_eq!(c.trace_agent_url.as_deref(), Some("http://agent:8126"));
    assert_eq!(c.metrics_agent_url, "agent:8125");
}

#[test]
fn setters_override_variables() {
    let mut vars = no_vars();
    vars.trace_agent_url = Some("http://agent:8126".to_string());
    let c = Config::builder(vars)
        .service("my-service")
        .env("staging")
        .version("9")
        .trace_agent_url(None)
        .metrics_agent_url("m:1")
        .build();
    assert_eq!(c.service, "my-service");
    assert_eq!(c.env, "staging");
    assert_eq!(c.version, "9");
    assert_eq!(c.trace_agent_url, None);
    assert_eq!(c.metrics_agent_url, "m:1");
    let c = Config::builder(no_vars()).trace_agent_url(Some("t:2")).build();
    assert_eq!(c.trace_agent_url.as_deref(), Some("t:2"));
}

#[test]
fn statsd_tags_name_service_env_version() {
    let c = Config::builder(no_vars()).service("pay").env("prod").version("7").build();
    let s = statsd_settings(&c);
    assert_eq!(s.to_addr, "localhost:8125");
    assert_eq!(s.default_tags, vec!["service:pay", "env:prod", "version:7"]);
}

#[test]
fn tracer_exports_only_with_agent() {
    let c = Config::builder(no_vars()).build();
    let t = tracer_settings(&c, None);
    assert!(t.trace_layer.is_none());
    assert!(t.pretty_logs);
}

#[test]
fn tracer_outside_development_exports_logs() {
    let c = Config::builder(no_vars())
        .service("pay")
        .env("production")
        .version("7")
        .trace_agent_url(Some("http://agent:8126"))
        .build();
    let t = tracer_settings(&c, Some("abc".to_string()));
    assert!(!t.pretty_logs);
    let l = t.trace_layer.unwrap();
    assert_eq!(l.service, "pay");
    assert_eq!(l.env, "production");
    assert_eq!(l.version, "7");
    assert_eq!(l.agent_address, "http://agent:8126");
    assert!(l.enable_logs);
    assert_eq!(l.container_id.as_deref(), Some("abc"));
}

#[test]
fn tracer_in_development_keeps_logs_local() {
    let c = Config::builder(no_vars()).trace_agent_url(Some("a:1")).build();
    let l = tracer_settings(&c, None).trace_layer.unwrap();
    assert!(!l.enable_logs);
    assert_eq!(l.container_id, None);
}

#[test]
fn pod_uid_prefers_uid_over_hostname() {
    assert_eq!(pod_uid(Some("u".to_string()), Some("h".to_string())).as_deref(), Some("u"));
    assert_eq!(pod_uid(None, Some("h".to_string())).as_deref(), Some("h"));
    assert_eq!(pod_uid(None, None), None);
}
