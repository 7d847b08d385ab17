//! StatsD metrics: what a client is made with.
use crate::config::Config;
use vstd::prelude::*;
use vstd::string::*;

verus! {

/// What a StatsD client is made with: the agent address metrics go to, and
/// the tags that every metric carries for unified service tagging.
pub struct StatsdSettings {
    pub to_addr: String,
    pub default_tags: Vec<String>,
}

/// A `name:value` tag.
pub open spec fn tag(name: Seq<char>, value: Seq<char>) -> Seq<char> {
    name + ":"@ + value
}

/// The default tags of a configuration: its service, env and version.
pub open spec fn default_tags(config: &Config) -> Seq<Seq<char>> {
    seq![
        tag("service"@, config.service@),
        tag("env"@, config.env@),
        tag("version"@, config.version@),
    ]
}

fn make_tag(name: &str, value: &String) -> (r: String)
    ensures
        r@ == tag(name@, value@),
{
    let mut t = String::from_str(name);
    t.append(":");
    t.append(value.as_str());
    t
}

/// The settings of the StatsD client for a configuration: metrics go to
/// its metrics agent, tagged with its service, env and version.
pub fn statsd_settings(config: &Config) -> (r: StatsdSettings)
    ensures
        r.to_addr@ == config.metrics_agent_url@,
        r.default_tags@.map_values(|t: String| t@) == default_tags(config),
{
    let mut tags = Vec::new();
    tags.push(make_tag("service", &config.service));
    tags.push(make_tag("env", &config.env));
    tags.push(make_tag("version", &config.version));
    let r = StatsdSettings { to_addr: config.metrics_agent_url.clone(), default_tags: tags };
    assert(r.default_tags@.map_values(|t: String| t@) =~= default_tags(config));
    r
}

} // verus!
