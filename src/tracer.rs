//! What the tracing subscriber is set up with.
use crate::config::{opt_view, Config};
use vstd::prelude::*;
use vstd::string::*;

verus! {

/// The settings of the layer that exports spans to the Datadog agent.
pub struct TraceLayerSettings {
    pub service: String,
    pub env: String,
    pub version: String,
    pub agent_address: String,
    /// Whether log events are exported too.
    pub enable_logs: bool,
    /// The container the service runs in, if known.
    pub container_id: Option<String>,
}

/// How tracing is set up: an export layer where a trace agent is
/// configured, and human-readable logs in development.
pub struct TracerSettings {
    pub trace_layer: Option<TraceLayerSettings>,
    pub pretty_logs: bool,
}

/// The environment name for local development.
pub open spec fn is_development(env: Seq<char>) -> bool {
    env == "development"@
}

/// The settings for a configuration and the container id, if any: spans are
/// exported only where a trace agent is configured, logs are exported
/// outside development, and printed in readable form within it.
pub fn tracer_settings(config: &Config, container_id: Option<String>) -> (r: TracerSettings)
    ensures
        r.pretty_logs == is_development(config.env@),
        r.trace_layer is Some <==> config.trace_agent_url is Some,
        match (r.trace_layer, config.trace_agent_url) {
            (Some(l), Some(url)) => {
                &&& l.service@ == config.service@
                &&& l.env@ == config.env@
                &&& l.version@ == config.version@
                &&& l.agent_address@ == url@
                &&& l.enable_logs == !is_development(config.env@)
                &&& opt_view(l.container_id) == opt_view(container_id)
            },
            _ => true,
        },
{
    let development = config.env == String::from_str("development");
    let trace_layer = match &config.trace_agent_url {
        Some(url) => Some(
            TraceLayerSettings {
                service: config.service.clone(),
                env: config.env.clone(),
                version: config.version.clone(),
                agent_address: url.clone(),
                enable_logs: !development,
                container_id,
            },
        ),
        None => None,
    };
    TracerSettings { trace_layer, pretty_logs: development }
}

/// The id of a Kubernetes pod: its UID where the downward API provides it,
/// else its name.
pub fn pod_uid(uid: Option<String>, hostname: Option<String>) -> (r: Option<String>)
    ensures
        opt_view(r) == match uid {
            Some(u) => Some(u@),
            None => opt_view(hostname),
        },
{
    match uid {
        Some(u) => Some(u),
        None => hostname,
    }
}

} // verus!
