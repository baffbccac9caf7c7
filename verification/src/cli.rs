//! The command-line surface, held as plain values, and the resolution of
//! the command line against a loaded configuration into the arguments the
//! run is driven by.

use vstd::prelude::*;
use crate::endpoint::UrlParts;
use crate::config::{ConfigEndpoint, Endpoint, endpoints_from_first_input, usable_endpoints,
    spec_usable, spec_endpoint_of, lemma_usable_all_named};
use crate::readiness::SocketAddress;
use crate::text::dec_seq;

verus! {

/// The application's command line: a subcommand and the global options.
pub struct Application {
    pub command: SubCommands,
    pub verbose: bool,
    pub config_file: Option<String>,
}

/// The application's subcommands. Only `Start` carries the options this
/// library decides over; the others are handled entirely at the edges.
pub enum SubCommands {
    /// Start scraping the specified endpoints, with a web interface to
    /// inspect the data.
    Start(CliArguments),
    /// Manage related system settings, such as cleaning up downloads.
    System,
    /// Open up the existing explorer.
    Explore,
    /// Proxy to another running scrape engine.
    Proxy,
    /// Create a new configuration file interactively.
    Init,
    /// Open the community chat.
    Discord,
    /// Run the updater.
    Update,
    /// List the functions in a project.
    List,
    /// Print the help as markdown.
    MarkdownHelp,
}

/// The options of the `Start` subcommand, as plain values.
pub struct CliArguments {
    /// The endpoints the scrape engine will poll, already parsed.
    pub metrics_endpoints: Vec<UrlParts>,
    /// The scrape engine version to use, written `v2.45.0`.
    pub prometheus_version: String,
    /// The default scrape interval, in seconds, when given.
    pub scrape_interval_secs: Option<u64>,
    /// The listen address of the front door.
    pub listen_address: SocketAddress,
    /// Whether the push gateway is enabled, when given.
    pub pushgateway_enabled: Option<bool>,
    /// The push gateway version to use, written `v1.6.0`.
    pub pushgateway_version: String,
    /// Whether to remove the working directories after the run.
    pub ephemeral: bool,
    /// Whether to leave the rule file out of the generated configuration.
    pub no_rules: bool,
}

/// The defaults a loaded configuration file contributes.
pub struct AmConfig {
    pub endpoints: Option<Vec<ConfigEndpoint>>,
    pub pushgateway_enabled: Option<bool>,
    pub prometheus_scrape_interval_secs: Option<u64>,
}

/// The resolved arguments the run is driven by.
pub struct Arguments {
    pub metrics_endpoints: Vec<Endpoint>,
    pub prometheus_version: String,
    pub prometheus_scrape_interval_secs: u64,
    pub listen_address: SocketAddress,
    pub pushgateway_enabled: bool,
    pub pushgateway_version: String,
    pub ephemeral_working_directory: bool,
    pub no_rules: bool,
}

impl Arguments {
    /// Resolves the command line against the loaded configuration: the
    /// command line's endpoints win when any were given and are named
    /// `am_0`, `am_1`, … in order; otherwise the configuration's
    /// endpoints that name their job are used. An option given on the
    /// command line beats the configuration's, and the scrape interval
    /// defaults to five seconds, the push gateway to disabled.
    pub fn new(args: CliArguments, config: AmConfig) -> (r: Arguments)
        ensures
            r.prometheus_version == args.prometheus_version,
            r.pushgateway_version == args.pushgateway_version,
            r.listen_address == args.listen_address,
            r.ephemeral_working_directory == args.ephemeral,
            r.no_rules == args.no_rules,
            r.pushgateway_enabled == (if args.pushgateway_enabled is Some {
                args.pushgateway_enabled->0
            } else if config.pushgateway_enabled is Some {
                config.pushgateway_enabled->0
            } else {
                false
            }),
            r.prometheus_scrape_interval_secs == (if args.scrape_interval_secs is Some {
                args.scrape_interval_secs->0
            } else if config.prometheus_scrape_interval_secs is Some {
                config.prometheus_scrape_interval_secs->0
            } else {
                5
            }),
            args.metrics_endpoints@.len() > 0 ==> {
                &&& r.metrics_endpoints@.len() == args.metrics_endpoints@.len()
                &&& forall|i: int| 0 <= i < r.metrics_endpoints@.len() ==> {
                    &&& (#[trigger] r.metrics_endpoints@[i]).url == args.metrics_endpoints@[i]
                    &&& r.metrics_endpoints@[i].job_name@ == "am_"@ + dec_seq(i as nat)
                    &&& r.metrics_endpoints@[i].honor_labels == false
                    &&& r.metrics_endpoints@[i].scrape_interval_secs is None
                }
            },
            args.metrics_endpoints@.len() == 0 ==> r.metrics_endpoints@ == (
            match config.endpoints {
                Some(c) => spec_usable(c@),
                None => Seq::<Endpoint>::empty(),
            }),
    {
        let ghost args_urls = args.metrics_endpoints@;
        let ghost cfg_eps = config.endpoints;
        let named = endpoints_from_first_input(args.metrics_endpoints, config.endpoints);
        let ghost named_view = named@;
        let metrics_endpoints = usable_endpoints(named);
        proof {
            if args_urls.len() > 0 {
                lemma_usable_all_named(named_view);
                assert forall|i: int| 0 <= i < metrics_endpoints@.len() implies {
                    &&& (#[trigger] metrics_endpoints@[i]).url == args_urls[i]
                    &&& metrics_endpoints@[i].job_name@ == "am_"@ + dec_seq(i as nat)
                    &&& metrics_endpoints@[i].honor_labels == false
                    &&& metrics_endpoints@[i].scrape_interval_secs is None
                } by {
                    assert(metrics_endpoints@[i] == spec_endpoint_of(named_view[i]));
                }
            } else {
                if cfg_eps is None {
                    assert(named_view.len() == 0);
                    assert(spec_usable(named_view).len() == 0);
                    assert(spec_usable(named_view) =~= Seq::<Endpoint>::empty());
                }
            }
        }
        Arguments {
            metrics_endpoints,
            prometheus_version: args.prometheus_version,
            prometheus_scrape_interval_secs: match args.scrape_interval_secs {
                Some(s) => s,
                None => match config.prometheus_scrape_interval_secs {
                    Some(s) => s,
                    None => 5,
                },
            },
            listen_address: args.listen_address,
            pushgateway_enabled: match args.pushgateway_enabled {
                Some(b) => b,
                None => match config.pushgateway_enabled {
                    Some(b) => b,
                    None => false,
                },
            },
            pushgateway_version: args.pushgateway_version,
            ephemeral_working_directory: args.ephemeral,
            no_rules: args.no_rules,
        }
    }
}

/// The default listen address of the front door.
pub fn default_listen_address() -> (r: SocketAddress)
    ensures
        r.host@ == "127.0.0.1"@,
        r.port@ == "6789"@,
{
    SocketAddress { host: String::from_str("127.0.0.1"), port: String::from_str("6789") }
}

} // verus!
