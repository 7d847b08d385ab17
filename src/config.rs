//! Configuration of service tags and agent addresses.
use vstd::prelude::*;
use vstd::string::*;

verus! {

/// The `DD_` variables that configuration defaults come from, as found in
/// the process environment (`DD_SERVICE`, `DD_ENV`, `DD_VERSION`,
/// `DD_TRACE_AGENT_URL`, `DD_METRICS_AGENT_URL`); `None` where unset.
pub struct ConfigEnv {
    pub service: Option<String>,
    pub env: Option<String>,
    pub version: Option<String>,
    pub trace_agent_url: Option<String>,
    pub metrics_agent_url: Option<String>,
}

/// The values of a configuration, as mathematical strings.
pub ghost struct ConfigView {
    pub service: Seq<char>,
    pub env: Seq<char>,
    pub version: Seq<char>,
    pub trace_agent_url: Option<Seq<char>>,
    pub metrics_agent_url: Seq<char>,
}

/// Observability configuration: default tags and where data is sent.
#[non_exhaustive]
pub struct Config {
    /// The `service` tag for metrics and traces; defaults to `unknown`.
    pub service: String,
    /// The `env` tag for metrics and traces; defaults to `development`.
    pub env: String,
    /// The `version` tag for metrics and traces; defaults to `unknown`.
    pub version: String,
    /// The agent address traces go to; without one no traces are sent.
    pub trace_agent_url: Option<String>,
    /// The agent address StatsD metrics go to; defaults to `localhost:8125`.
    pub metrics_agent_url: String,
}

/// Builder to construct a [`Config`].
pub struct ConfigBuilder {
    service: String,
    env: String,
    version: String,
    trace_agent_url: Option<String>,
    metrics_agent_url: String,
}

/// The view of an optional string.
pub open spec fn opt_view(o: Option<String>) -> Option<Seq<char>> {
    match o {
        Some(s) => Some(s@),
        None => None,
    }
}

/// The value of a variable, or `default` where it is unset.
pub open spec fn or_default(o: Option<String>, default: Seq<char>) -> Seq<char> {
    match o {
        Some(s) => s@,
        None => default,
    }
}

/// The configuration that the given environment yields before any setter.
pub open spec fn defaults_from(vars: ConfigEnv) -> ConfigView {
    ConfigView {
        service: or_default(vars.service, "unknown"@),
        env: or_default(vars.env, "development"@),
        version: or_default(vars.version, "unknown"@),
        trace_agent_url: opt_view(vars.trace_agent_url),
        metrics_agent_url: or_default(vars.metrics_agent_url, "localhost:8125"@),
    }
}

impl View for Config {
    type V = ConfigView;

    open spec fn view(&self) -> ConfigView {
        ConfigView {
            service: self.service@,
            env: self.env@,
            version: self.version@,
            trace_agent_url: opt_view(self.trace_agent_url),
            metrics_agent_url: self.metrics_agent_url@,
        }
    }
}

impl View for ConfigBuilder {
    type V = ConfigView;

    closed spec fn view(&self) -> ConfigView {
        ConfigView {
            service: self.service@,
            env: self.env@,
            version: self.version@,
            trace_agent_url: opt_view(self.trace_agent_url),
            metrics_agent_url: self.metrics_agent_url@,
        }
    }
}

fn value_or(o: Option<String>, default: &str) -> (r: String)
    ensures
        r@ == or_default(o, default@),
{
    match o {
        Some(s) => s,
        None => String::from_str(default),
    }
}

fn opt_to_string(o: Option<&str>) -> (r: Option<String>)
    ensures
        opt_view(r) == match o {
            Some(s) => Some(s@),
            None => None::<Seq<char>>,
        },
{
    match o {
        Some(s) => Some(String::from_str(s)),
        None => None,
    }
}

impl Config {
    /// Creates a builder whose values come from the given environment
    /// variables, with the documented default for each one that is unset.
    pub fn builder(vars: ConfigEnv) -> (r: ConfigBuilder)
        ensures
            r@ == defaults_from(vars),
    {
        let b = ConfigBuilder {
            service: value_or(vars.service, "unknown"),
            env: value_or(vars.env, "development"),
            version: value_or(vars.version, "unknown"),
            trace_agent_url: vars.trace_agent_url,
            metrics_agent_url: value_or(vars.metrics_agent_url, "localhost:8125"),
        };
        b
    }
}

impl ConfigBuilder {
    /// Sets the `service` tag.
    pub fn service(self, service: &str) -> (r: Self)
        ensures
            r@ == (ConfigView { service: service@, ..self@ }),
    {
        ConfigBuilder { service: String::from_str(service), ..self }
    }

    /// Sets the `env` tag.
    pub fn env(self, env: &str) -> (r: Self)
        ensures
            r@ == (ConfigView { env: env@, ..self@ }),
    {
        ConfigBuilder { env: String::from_str(env), ..self }
    }

    /// Sets the `version` tag.
    pub fn version(self, version: &str) -> (r: Self)
        ensures
            r@ == (ConfigView { version: version@, ..self@ }),
    {
        ConfigBuilder { version: String::from_str(version), ..self }
    }

    /// Sets the agent address traces go to; `None` turns trace export off.
    pub fn trace_agent_url(self, trace_agent_url: Option<&str>) -> (r: Self)
        ensures
            r@ == (ConfigView {
                trace_agent_url: match trace_agent_url {
                    Some(s) => Some(s@),
                    None => None,
                },
                ..self@
            }),
    {
        ConfigBuilder { trace_agent_url: opt_to_string(trace_agent_url), ..self }
    }

    /// Sets the agent address StatsD metrics go to.
    pub fn metrics_agent_url(self, metrics_agent_url: &str) -> (r: Self)
        ensures
            r@ == (ConfigView { metrics_agent_url: metrics_agent_url@, ..self@ }),
    {
        ConfigBuilder { metrics_agent_url: String::from_str(metrics_agent_url), ..self }
    }

    /// Consumes the builder, returning the constructed [`Config`].
    pub fn build(self) -> (r: Config)
        ensures
            r@ == self@,
    {
        Config {
            service: self.service,
            env: self.env,
            version: self.version,
            trace_agent_url: self.trace_agent_url,
            metrics_agent_url: self.metrics_agent_url,
        }
    }
}

} // verus!
