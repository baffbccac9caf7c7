//! Endpoints and the generated backend configuration.
//!
//! An endpoint pairs a parsed URL with a job name, and the generated
//! configuration document is derived deterministically from the set of
//! endpoints plus the global intervals and optional rule-file references.

use vstd::prelude::*;
use vstd::string::*;
use crate::endpoint::UrlParts;
use crate::text::{str_eq, dec_seq, usize_to_string};

verus! {

/// An endpoint the scrape engine will poll. Immutable once constructed.
#[derive(Clone, Debug)]
pub struct Endpoint {
    pub url: UrlParts,
    pub job_name: String,
    pub honor_labels: bool,
    pub scrape_interval_secs: Option<u64>,
}

impl Endpoint {
    /// Pairs a parsed URL with its job name and scrape options.
    pub fn new(
        url: UrlParts,
        job_name: String,
        honor_labels: bool,
        scrape_interval_secs: Option<u64>,
    ) -> (r: Self)
        ensures
            r.url == url,
            r.job_name == job_name,
            r.honor_labels == honor_labels,
            r.scrape_interval_secs == scrape_interval_secs,
    {
        Self { url, job_name, honor_labels, scrape_interval_secs }
    }

    /// Accepts an endpoint from a loaded configuration: it must name its
    /// job; the other options take their defaults when absent.
    pub fn try_from(value: ConfigEndpoint) -> (r: Result<Endpoint, EndpointConfigError>)
        ensures
            match r {
                Ok(e) => value.job_name is Some && e == spec_endpoint_of(value),
                Err(EndpointConfigError::MissingJobName) => value.job_name is None,
            },
    {
        match value.job_name {
            Some(n) => Ok(
                Endpoint {
                    url: value.url,
                    job_name: n,
                    honor_labels: match value.honor_labels {
                        Some(b) => b,
                        None => false,
                    },
                    scrape_interval_secs: value.prometheus_scrape_interval_secs,
                },
            ),
            None => Err(EndpointConfigError::MissingJobName),
        }
    }
}

/// An endpoint as a loaded configuration file gives it: every option may
/// be absent.
pub struct ConfigEndpoint {
    pub url: UrlParts,
    pub job_name: Option<String>,
    pub honor_labels: Option<bool>,
    pub prometheus_scrape_interval_secs: Option<u64>,
}

/// Why a configured endpoint was rejected.
#[derive(Clone, Copy, PartialEq, Eq, Structural, Debug)]
pub enum EndpointConfigError {
    /// A configured endpoint must name its job.
    MissingJobName,
}

/// The endpoint a named configured endpoint stands for.
pub open spec fn spec_endpoint_of(c: ConfigEndpoint) -> Endpoint
    recommends
        c.job_name is Some,
{
    Endpoint {
        url: c.url,
        job_name: c.job_name->0,
        honor_labels: if c.honor_labels is Some {
            c.honor_labels->0
        } else {
            false
        },
        scrape_interval_secs: c.prometheus_scrape_interval_secs,
    }
}

/// The endpoints of a configured list that name their job, in order.
pub open spec fn spec_usable(s: Seq<ConfigEndpoint>) -> Seq<Endpoint>
    decreases s.len(),
{
    if s.len() == 0 {
        Seq::<Endpoint>::empty()
    } else {
        let rest = spec_usable(s.drop_first());
        if s.first().job_name is Some {
            seq![spec_endpoint_of(s.first())] + rest
        } else {
            rest
        }
    }
}

/// When every configured endpoint names its job, none is dropped: the
/// usable endpoints are exactly the configured ones, element for element.
pub proof fn lemma_usable_all_named(s: Seq<ConfigEndpoint>)
    requires
        forall|i: int| 0 <= i < s.len() ==> (#[trigger] s[i]).job_name is Some,
    ensures
        spec_usable(s).len() == s.len(),
        forall|i: int| 0 <= i < s.len() ==> spec_usable(s)[i] == spec_endpoint_of(s[i]),
    decreases s.len(),
{
    if s.len() > 0 {
        let rest = s.drop_first();
        assert(forall|i: int| 0 <= i < rest.len() ==> (#[trigger] rest[i]).job_name is Some)
            by {
            assert(forall|i: int| 0 <= i < rest.len() ==> rest[i] == s[i + 1]);
        }
        lemma_usable_all_named(rest);
        assert(s.first().job_name is Some);
        assert forall|i: int| 0 <= i < s.len() implies spec_usable(s)[i] == spec_endpoint_of(
            s[i],
        ) by {
            if i > 0 {
                assert(spec_usable(s)[i] == spec_usable(rest)[i - 1]);
                assert(rest[i - 1] == s[i]);
            }
        }
    }
}

/// Keeps the configured endpoints that name their job, converted, in
/// order; the others are dropped.
pub fn usable_endpoints(list: Vec<ConfigEndpoint>) -> (r: Vec<Endpoint>)
    ensures
        r@ == spec_usable(list@),
{
    let ghost orig = list@;
    let mut list = list;
    let mut out: Vec<Endpoint> = Vec::new();
    proof {
        assert(out@ + spec_usable(list@) =~= spec_usable(orig));
    }
    while list.len() > 0
        invariant
            spec_usable(orig) == out@ + spec_usable(list@),
        decreases list@.len(),
    {
        let ghost pre = list@;
        let c = list.remove(0);
        proof {
            assert(pre.remove(0) =~= pre.drop_first());
            assert(pre.first() == c);
        }
        match Endpoint::try_from(c) {
            Ok(e) => {
                let ghost out_pre = out@;
                out.push(e);
                proof {
                    assert(out@ =~= out_pre + seq![e]);
                    assert((out_pre + seq![spec_endpoint_of(c)]) + spec_usable(list@)
                        =~= out_pre + (seq![spec_endpoint_of(c)] + spec_usable(list@)));
                }
            },
            Err(_) => {},
        }
    }
    proof {
        assert(spec_usable(list@).len() == 0);
        assert(out@ =~= spec_usable(orig));
    }
    out
}

/// The job name given to the i-th endpoint taken from the command line.
pub fn job_name_for(i: usize) -> (r: String)
    ensures
        r@ == "am_"@ + dec_seq(i as nat),
{
    let mut r = String::from_str("am_");
    let digits = usize_to_string(i);
    r.append(digits.as_str());
    proof {
        assert(r@ =~= "am_"@ + dec_seq(i as nat));
    }
    r
}

/// Uses the command line's endpoints when any were given — each becomes a
/// configured endpoint named `am_0`, `am_1`, … in order — and falls back
/// to the loaded configuration's endpoints otherwise.
pub fn endpoints_from_first_input(args: Vec<UrlParts>, config: Option<Vec<ConfigEndpoint>>) -> (r:
    Vec<ConfigEndpoint>)
    ensures
        args@.len() > 0 ==> {
            &&& r@.len() == args@.len()
            &&& forall|i: int| 0 <= i < r@.len() ==> {
                &&& (#[trigger] r@[i]).url == args@[i]
                &&& r@[i].job_name matches Some(n) && n@ == "am_"@ + dec_seq(i as nat)
                &&& r@[i].honor_labels is None
                &&& r@[i].prometheus_scrape_interval_secs is None
            }
        },
        args@.len() == 0 ==> match config {
            Some(c) => r@ == c@,
            None => r@.len() == 0,
        },
{
    if args.len() == 0 {
        return match config {
            Some(c) => c,
            None => Vec::new(),
        };
    }
    let ghost orig = args@;
    let mut args = args;
    let mut out: Vec<ConfigEndpoint> = Vec::new();
    while args.len() > 0
        invariant
            out@.len() + args@.len() == orig.len(),
            args@ == orig.subrange(out@.len() as int, orig.len() as int),
            forall|i: int| 0 <= i < out@.len() ==> {
                &&& (#[trigger] out@[i]).url == orig[i]
                &&& out@[i].job_name matches Some(n) && n@ == "am_"@ + dec_seq(i as nat)
                &&& out@[i].honor_labels is None
                &&& out@[i].prometheus_scrape_interval_secs is None
            },
        decreases args@.len(),
    {
        let ghost pre = args@;
        let u = args.remove(0);
        proof {
            assert(pre[0] == orig[out@.len() as int]);
        }
        let name = job_name_for(out.len());
        out.push(
            ConfigEndpoint {
                url: u,
                job_name: Some(name),
                honor_labels: None,
                prometheus_scrape_interval_secs: None,
            },
        );
        proof {
            assert(args@ =~= orig.subrange(out@.len() as int, orig.len() as int));
        }
    }
    out
}

/// The endpoint the push gateway itself is scraped under when it is
/// enabled: its own metrics behind the front door's `/pushgateway`
/// prefix, honouring the labels it exposes.
pub fn pushgateway_endpoint() -> (r: Endpoint)
    ensures
        r.url.scheme@ == "http"@,
        r.url.host@ == "localhost"@,
        r.url.port@ == "9091"@,
        r.url.path@ == "/pushgateway/metrics"@,
        r.job_name@ == "am_pushgateway"@,
        r.honor_labels == true,
        r.scrape_interval_secs is None,
{
    Endpoint {
        url: UrlParts {
            scheme: String::from_str("http"),
            host: String::from_str("localhost"),
            port: String::from_str("9091"),
            path: String::from_str("/pushgateway/metrics"),
        },
        job_name: String::from_str("am_pushgateway"),
        honor_labels: true,
        scrape_interval_secs: None,
    }
}

/// The scheme of a generated scrape configuration.
#[derive(Clone, Copy, PartialEq, Eq, Structural, Debug)]
pub enum Scheme {
    Http,
    Https,
}

/// One static target list of a scrape configuration.
pub struct StaticScrapeConfig {
    pub targets: Vec<String>,
}

/// One job of the generated configuration document.
pub struct ScrapeConfig {
    pub job_name: String,
    pub static_configs: Vec<StaticScrapeConfig>,
    pub metrics_path: Option<String>,
    pub scheme: Option<Scheme>,
    pub honor_labels: Option<bool>,
    pub scrape_interval_secs: Option<u64>,
}

/// How a scrape configuration is derived from an endpoint: one static
/// target `host:port`, the endpoint's path (or `/metrics` when empty),
/// its scheme when it is `http` or `https`, and its options verbatim.
pub open spec fn spec_scrape_config_matches(sc: ScrapeConfig, e: Endpoint) -> bool {
    &&& sc.job_name == e.job_name
    &&& sc.static_configs@.len() == 1
    &&& sc.static_configs@[0].targets@.len() == 1
    &&& sc.static_configs@[0].targets@[0]@ == e.url.host@ + ":"@ + e.url.port@
    &&& (sc.metrics_path matches Some(p) && p@ == (if e.url.path@.len() == 0 {
        "/metrics"@
    } else {
        e.url.path@
    }))
    &&& sc.scheme == (if e.url.scheme@ == "http"@ {
        Some(Scheme::Http)
    } else if e.url.scheme@ == "https"@ {
        Some(Scheme::Https)
    } else {
        None::<Scheme>
    })
    &&& sc.honor_labels == Some(e.honor_labels)
    &&& sc.scrape_interval_secs == e.scrape_interval_secs
}

impl ScrapeConfig {
    /// Converts an endpoint to the scrape configuration that polls it.
    pub fn from(endpoint: Endpoint) -> (r: ScrapeConfig)
        ensures
            spec_scrape_config_matches(r, endpoint),
    {
        let Endpoint { url, job_name, honor_labels, scrape_interval_secs } = endpoint;
        let UrlParts { scheme, host, port, path } = url;
        let mapped_scheme = if str_eq(scheme.as_str(), "http") {
            Some(Scheme::Http)
        } else if str_eq(scheme.as_str(), "https") {
            Some(Scheme::Https)
        } else {
            None
        };
        let metrics_path = if path.unicode_len() == 0 {
            String::from_str("/metrics")
        } else {
            path
        };
        let mut target = host;
        target.append(":");
        target.append(port.as_str());
        proof {
            assert(target@ =~= endpoint.url.host@ + ":"@ + endpoint.url.port@);
        }
        let mut targets: Vec<String> = Vec::new();
        targets.push(target);
        let mut static_configs: Vec<StaticScrapeConfig> = Vec::new();
        static_configs.push(StaticScrapeConfig { targets });
        ScrapeConfig {
            job_name,
            static_configs,
            metrics_path: Some(metrics_path),
            scheme: mapped_scheme,
            honor_labels: Some(honor_labels),
            scrape_interval_secs,
        }
    }
}

/// The global section of the generated configuration document.
pub struct GlobalConfig {
    pub scrape_interval_secs: u64,
    pub evaluation_interval_secs: u64,
}

/// The generated configuration document, written to a fresh file per run
/// and never mutated after being handed to the child process.
pub struct Config {
    pub global: GlobalConfig,
    pub scrape_configs: Vec<ScrapeConfig>,
    pub rule_files: Vec<String>,
}

/// Generates the configuration document: the given global scrape
/// interval, a fixed fifteen-second evaluation interval, one scrape
/// configuration per endpoint in order, and the rule file when one is
/// enabled.
pub fn generate_prom_config(
    scrape_interval_secs: u64,
    metric_endpoints: Vec<Endpoint>,
    rule_file: Option<String>,
) -> (r: Config)
    ensures
        r.global.scrape_interval_secs == scrape_interval_secs,
        r.global.evaluation_interval_secs == 15,
        r.scrape_configs@.len() == metric_endpoints@.len(),
        forall|i: int| 0 <= i < metric_endpoints@.len() ==> spec_scrape_config_matches(
            #[trigger] r.scrape_configs@[i],
            metric_endpoints@[i],
        ),
        match rule_file {
            Some(f) => r.rule_files@.len() == 1 && r.rule_files@[0] == f,
            None => r.rule_files@.len() == 0,
        },
{
    let ghost orig = metric_endpoints@;
    let mut remaining = metric_endpoints;
    let mut scrape_configs: Vec<ScrapeConfig> = Vec::new();
    while remaining.len() > 0
        invariant
            scrape_configs@.len() + remaining@.len() == orig.len(),
            remaining@ == orig.subrange(scrape_configs@.len() as int, orig.len() as int),
            forall|i: int| 0 <= i < scrape_configs@.len() ==> spec_scrape_config_matches(
                #[trigger] scrape_configs@[i],
                orig[i],
            ),
        decreases remaining@.len(),
    {
        let ghost pre = remaining@;
        let e = remaining.remove(0);
        proof {
            assert(pre[0] == orig[scrape_configs@.len() as int]);
        }
        let sc = ScrapeConfig::from(e);
        scrape_configs.push(sc);
        proof {
            assert(remaining@ =~= orig.subrange(scrape_configs@.len() as int, orig.len() as int));
        }
    }
    let mut rule_files: Vec<String> = Vec::new();
    match rule_file {
        Some(f) => {
            rule_files.push(f);
        },
        None => {},
    }
    Config {
        global: GlobalConfig { scrape_interval_secs, evaluation_interval_secs: 15 },
        scrape_configs,
        rule_files,
    }
}

/// The path of the shared rule file under the system's temporary
/// directory, as the generated configuration references it.
pub fn rules_file_path(temp_dir: &str) -> (r: String)
    ensures
        r@ == temp_dir@ + "/autometrics.rules.yml"@,
{
    let mut r = String::new();
    r.append(temp_dir);
    r.append("/autometrics.rules.yml");
    proof {
        assert(r@ =~= temp_dir@ + "/autometrics.rules.yml"@);
    }
    r
}

} // verus!
