//! Endpoint configuration, as handed over fully merged by the loader.

use vstd::prelude::*;

verus! {

/// Seconds between probes when an endpoint sets no interval of its own.
pub const DEFAULT_INTERVAL_SECS: u64 = 60;

/// Request deadline in seconds when an endpoint sets no timeout of its own.
pub const DEFAULT_TIMEOUT_SECS: u64 = 5;

/// The configuration file read when none is named on the command line.
pub open spec fn default_config_path() -> Seq<char> {
    "statui.toml"@
}

/// The configuration of one monitored endpoint.
#[derive(Debug, Clone)]
pub struct Endpoint {
    /// Unique, stable identifier of the endpoint.
    pub name: String,
    pub url: String,
    /// Seconds between probes, overriding the configuration-wide default.
    pub interval: Option<u64>,
    /// Request deadline in seconds, overriding the configuration-wide default.
    pub timeout: Option<u64>,
    /// HTTP method; GET when absent.
    pub method: Option<String>,
    /// Headers sent with every probe, as name and value.
    pub headers: Vec<(String, String)>,
    /// Accept invalid TLS certificates.
    pub skip_cert_verification: Option<bool>,
}

/// The whole configuration: defaults and the ordered endpoint list.
#[derive(Debug, Clone)]
pub struct StatuiConfig {
    pub default_interval: u64,
    pub default_timeout: u64,
    pub endpoints: Vec<Endpoint>,
}

impl Default for StatuiConfig {
    fn default() -> (r: Self)
        ensures
            r.default_interval == DEFAULT_INTERVAL_SECS,
            r.default_timeout == DEFAULT_TIMEOUT_SECS,
            r.endpoints@.len() == 0,
    {
        StatuiConfig {
            default_interval: DEFAULT_INTERVAL_SECS,
            default_timeout: DEFAULT_TIMEOUT_SECS,
            endpoints: Vec::new(),
        }
    }
}

/// Whether `s` names an HTTP method that requests can carry.
pub uninterp spec fn is_method_token(s: Seq<char>) -> bool;

/// Relies on http's `Method::from_bytes` (re-exported by reqwest): whether a
/// name is accepted depends on its text alone; the empty name is refused and
/// "GET" is accepted.
#[verifier::external_body]
fn method_accepted(s: &str) -> (r: bool)
    ensures
        r == is_method_token(s@),
        s@.len() == 0 ==> !r,
        s@ == "GET"@ ==> r,
{
    reqwest::Method::from_bytes(s.as_bytes()).is_ok()
}

/// The method a probe uses: the configured one where it is given and
/// accepted, GET otherwise.
pub open spec fn chosen_method(method: Option<Seq<char>>, accepted: bool) -> Seq<char> {
    match method {
        Some(m) => if accepted { m } else { "GET"@ },
        None => "GET"@,
    }
}

/// The method a probe uses, given the configured `method` and whether it
/// was accepted as a method name.
pub fn method_or_default(method: &Option<String>, accepted: bool) -> (r: String)
    ensures
        r@ == chosen_method(
            match method {
                Some(m) => Some(m@),
                None => None,
            },
            accepted,
        ),
{
    match method {
        Some(m) => if accepted {
            m.clone()
        } else {
            String::from_str("GET")
        },
        None => String::from_str("GET"),
    }
}

impl Endpoint {
    /// The method this endpoint's probes use: the configured one where it
    /// names a method, GET otherwise.
    pub open spec fn method_spec(self) -> Seq<char> {
        match self.method {
            Some(m) => chosen_method(Some(m@), is_method_token(m@)),
            None => "GET"@,
        }
    }

    /// Seconds between two probes of this endpoint.
    pub fn effective_interval(&self, default_interval: u64) -> (r: u64)
        ensures
            r == match self.interval {
                Some(secs) => secs,
                None => default_interval,
            },
    {
        match self.interval {
            Some(secs) => secs,
            None => default_interval,
        }
    }

    /// Deadline in seconds of each probe of this endpoint.
    pub fn effective_timeout(&self, default_timeout: u64) -> (r: u64)
        ensures
            r == match self.timeout {
                Some(secs) => secs,
                None => default_timeout,
            },
    {
        match self.timeout {
            Some(secs) => secs,
            None => default_timeout,
        }
    }

    /// The method this endpoint's probes use.
    pub fn effective_method(&self) -> (r: String)
        ensures
            r@ == self.method_spec(),
    {
        let accepted = match &self.method {
            Some(m) => method_accepted(m.as_str()),
            None => false,
        };
        method_or_default(&self.method, accepted)
    }

    /// Whether probes of this endpoint accept invalid certificates.
    pub fn skips_cert_verification(&self) -> (r: bool)
        ensures
            r == (self.skip_cert_verification == Some(true)),
    {
        match self.skip_cert_verification {
            Some(skip) => skip,
            None => false,
        }
    }
}

/// The configuration path named by the command line `args` (program name
/// first): the first argument after it, or the default file.
pub fn local_config_path(args: &Vec<String>) -> (r: String)
    ensures
        r@ == if args@.len() >= 2 {
            args@[1]@
        } else {
            default_config_path()
        },
{
    if args.len() >= 2 {
        args[1].clone()
    } else {
        String::from_str("statui.toml")
    }
}

} // verus!
