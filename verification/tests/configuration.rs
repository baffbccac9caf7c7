use am::cli::{AmConfig, Arguments, CliArguments};
use am::config::{
    endpoints_from_first_input, generate_prom_config, pushgateway_endpoint, rules_file_path,
    usable_endpoints, ConfigEndpoint, Endpoint, ScrapeConfig, Scheme,
};
use am::endpoint::endpoint_parser;
use am::readiness::SocketAddress;
use am::text::usize_to_string;

fn url(input: &str) -> am::endpoint::UrlParts {
    endpoint_parser(input).expect("expected no error")
}

fn listen() -> SocketAddress {
    SocketAddress { host: "127.0.0.1".to_string(), port: "6789".to_string() }
}

fn cli(endpoints: Vec<am::endpoint::UrlParts>) -> CliArguments {
    CliArguments {
        metrics_endpoints: endpoints,
        prometheus_version: "v2.45.0".to_string(),
        scrape_interval_secs: None,
        listen_address: listen(),
        pushgateway_enabled: None,
        pushgateway_version: "v1.6.0".to_string(),
        ephemeral: false,
        no_rules: false,
    }
}

fn empty_config() -> AmConfig {
    AmConfig { endpoints: None, pushgateway_enabled: None, prometheus_scrape_interval_secs: None }
}

#[test]
fn decimal_rendering_is_exact() {
    assert_eq!(usize_to_string(0), "0");
    assert_eq!(usize_to_string(7), "7");
    assert_eq!(usize_to_string(42), "42");
    assert_eq!(usize_to_string(65535), "65535");
}

#[test]
fn command_line_endpoints_are_named_in_order() {
    let named = endpoints_from_first_input(vec![url(":3000"), url(":3001")], None);
    assert_eq!(named.len(), 2);
    assert_eq!(named[0].job_name.as_deref(), Some("am_0"));
    assert_eq!(named[1].job_name.as_deref(), Some("am_1"));
    assert_eq!(named[0].url.port, "3000");
    assert_eq!(named[1].url.port, "3001");
}

#[test]
fn config_endpoints_are_used_when_the_command_line_has_none() {
    let cfg = vec![ConfigEndpoint {
        url: url("localhost:4000"),
        job_name: Some("configured".to_string()),
        honor_labels: Some(true),
        prometheus_scrape_interval_secs: Some(30),
    }];
    let named = endpoints_from_first_input(Vec::new(), Some(cfg));
    assert_eq!(named.len(), 1);
    assert_eq!(named[0].job_name.as_deref(), Some("configured"));
}

#[test]
fn unnamed_config_endpoints_are_dropped() {
    let eps = usable_endpoints(vec![
        ConfigEndpoint {
            url: url("localhost:4000"),
            job_name: None,
            honor_labels: None,
            prometheus_scrape_interval_secs: None,
        },
        ConfigEndpoint {
            url: url("localhost:4001"),
            job_name: Some("kept".to_string()),
            honor_labels: None,
            prometheus_scrape_interval_secs: Some(9),
        },
    ]);
    assert_eq!(eps.len(), 1);
    assert_eq!(eps[0].job_name, "kept");
    assert_eq!(eps[0].honor_labels, false);
    assert_eq!(eps[0].scrape_interval_secs, Some(9));
}

#[test]
fn endpoint_from_config_requires_a_job_name() {
    let unnamed = ConfigEndpoint {
        url: url("localhost:4000"),
        job_name: None,
        honor_labels: None,
        prometheus_scrape_interval_secs: None,
    };
    assert!(matches!(
        Endpoint::try_from(unnamed),
        Err(am::config::EndpointConfigError::MissingJobName)
    ));

    let named = ConfigEndpoint {
        url: url("localhost:4000"),
        job_name: Some("job".to_string()),
        honor_labels: None,
        prometheus_scrape_interval_secs: None,
    };
    let endpoint = Endpoint::try_from(named).expect("a named endpoint converts");
    assert_eq!(endpoint.job_name, "job");
    assert!(!endpoint.honor_labels);
}

#[test]
fn argument_resolution_applies_defaults_and_precedence() {
    let args = Arguments::new(cli(vec![url(":3000")]), empty_config());
    assert_eq!(args.prometheus_scrape_interval_secs, 5);
    assert!(!args.pushgateway_enabled);
    assert_eq!(args.metrics_endpoints.len(), 1);
    assert_eq!(args.metrics_endpoints[0].job_name, "am_0");

    let from_config = AmConfig {
        endpoints: None,
        pushgateway_enabled: Some(true),
        prometheus_scrape_interval_secs: Some(60),
    };
    let args = Arguments::new(cli(Vec::new()), from_config);
    assert_eq!(args.prometheus_scrape_interval_secs, 60);
    assert!(args.pushgateway_enabled);

    let mut on_cli = cli(Vec::new());
    on_cli.scrape_interval_secs = Some(10);
    on_cli.pushgateway_enabled = Some(false);
    let overriding = AmConfig {
        endpoints: None,
        pushgateway_enabled: Some(true),
        prometheus_scrape_interval_secs: Some(60),
    };
    let args = Arguments::new(on_cli, overriding);
    assert_eq!(args.prometheus_scrape_interval_secs, 10);
    assert!(!args.pushgateway_enabled);
}

#[test]
fn pushgateway_scrape_endpoint_is_fixed() {
    let e = pushgateway_endpoint();
    assert_eq!(e.url.render(), "http://localhost:9091/pushgateway/metrics");
    assert_eq!(e.job_name, "am_pushgateway");
    assert!(e.honor_labels);
    assert_eq!(e.scrape_interval_secs, None);
}

#[test]
fn scrape_config_is_derived_from_the_endpoint() {
    let e = Endpoint::new(url("https://example.com:8443/api/metrics"), "job".to_string(), true, Some(15));
    let sc = ScrapeConfig::from(e);
    assert_eq!(sc.job_name, "job");
    assert_eq!(sc.static_configs.len(), 1);
    assert_eq!(sc.static_configs[0].targets, vec!["example.com:8443".to_string()]);
    assert_eq!(sc.metrics_path.as_deref(), Some("/api/metrics"));
    assert_eq!(sc.scheme, Some(Scheme::Https));
    assert_eq!(sc.honor_labels, Some(true));
    assert_eq!(sc.scrape_interval_secs, Some(15));
}

#[test]
fn generated_config_holds_globals_jobs_and_rule_files() {
    let endpoints = vec![
        Endpoint::new(url(":3000"), "am_0".to_string(), false, None),
        pushgateway_endpoint(),
    ];
    let config = generate_prom_config(5, endpoints, Some("/tmp/autometrics.rules.yml".to_string()));
    assert_eq!(config.global.scrape_interval_secs, 5);
    assert_eq!(config.global.evaluation_interval_secs, 15);
    assert_eq!(config.scrape_configs.len(), 2);
    assert_eq!(config.scrape_configs[0].job_name, "am_0");
    assert_eq!(
        config.scrape_configs[0].static_configs[0].targets,
        vec!["localhost:3000".to_string()]
    );
    assert_eq!(config.scrape_configs[1].job_name, "am_pushgateway");
    assert_eq!(config.rule_files, vec!["/tmp/autometrics.rules.yml".to_string()]);

    let without_rules = generate_prom_config(5, Vec::new(), None);
    assert!(without_rules.rule_files.is_empty());
    assert!(without_rules.scrape_configs.is_empty());
}

#[test]
fn rules_file_lives_under_the_temporary_directory() {
    assert_eq!(rules_file_path("/tmp"), "/tmp/autometrics.rules.yml");
}
