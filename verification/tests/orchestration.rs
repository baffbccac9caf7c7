use am::coordinate::{shutdown_decision, RunDecision, TaskName, TaskReport};
use am::platform::{determine_os_and_arch, ConfigurationError};
use am::proxy::{endpoint_health_ok, proxy_response_status, route_request, Backend, RouteDecision};
use am::readiness::{
    close, external_authority, publish, wait_outcome, GateState, SocketAddress, WaitOutcome,
};
use am::supervise::{
    classify_exit, prometheus_binary_name, prometheus_launch_args, prometheus_runtime_dir_name,
    pushgateway_launch_args, ExitStatus, ProcessOutput, SupervisorError,
};

#[test]
fn os_and_arch_follow_the_vendor_convention() {
    assert_eq!(determine_os_and_arch("linux", "x86_64"), Ok(("linux", "amd64")));
    assert_eq!(determine_os_and_arch("macos", "aarch64"), Ok(("darwin", "arm64")));
    assert_eq!(determine_os_and_arch("windows", "x86"), Ok(("windows", "386")));
}

#[test]
fn unsupported_platform_is_a_configuration_error() {
    assert_eq!(
        determine_os_and_arch("plan9", "x86_64"),
        Err(ConfigurationError::UnsupportedOs)
    );
    assert_eq!(
        determine_os_and_arch("linux", "mips"),
        Err(ConfigurationError::UnsupportedArch)
    );
}

#[test]
fn ready_is_observed_only_after_publish() {
    // Before the proxy has bound, a reader only ever observes Pending.
    let gate = GateState::Unpublished;
    assert!(matches!(wait_outcome(gate), WaitOutcome::Pending));

    // Publishing the bound address resolves every later wait to exactly
    // that address.
    let bound = SocketAddress { host: "127.0.0.1".to_string(), port: "6789".to_string() };
    let gate = publish(GateState::Unpublished, bound);
    match wait_outcome(gate) {
        WaitOutcome::Ready(a) => {
            assert_eq!(a.host, "127.0.0.1");
            assert_eq!(a.port, "6789");
            assert_eq!(a.authority(), "127.0.0.1:6789");
        }
        _ => panic!("expected the published address"),
    }
}

#[test]
fn dropped_publisher_fails_waiters_instead_of_hanging() {
    let gate = close(GateState::Unpublished);
    assert!(matches!(wait_outcome(gate), WaitOutcome::Failed));
    let authority = external_authority(WaitOutcome::Failed);
    assert_eq!(authority, "localhost:6789");
}

#[test]
fn external_authority_uses_the_published_address() {
    let bound = SocketAddress { host: "0.0.0.0".to_string(), port: "7000".to_string() };
    assert_eq!(external_authority(WaitOutcome::Ready(bound)), "0.0.0.0:7000");
}

#[test]
fn interrupt_beats_a_concurrent_failure() {
    // A backend fails at the same instant the interrupt arrives: the
    // interrupt wins and the run is a clean success, on every run.
    for _ in 0..100 {
        let d = shutdown_decision(
            true,
            TaskReport::Running,
            TaskReport::Failed("backend exited with status 1".to_string()),
            TaskReport::Running,
        );
        assert!(matches!(d, RunDecision::Success));
    }
}

#[test]
fn first_failure_without_interrupt_is_fatal_and_named() {
    let d = shutdown_decision(
        false,
        TaskReport::Running,
        TaskReport::Failed("boom".to_string()),
        TaskReport::Running,
    );
    match d {
        RunDecision::Fatal { task, message } => {
            assert_eq!(task, TaskName::Prometheus);
            assert_eq!(message, "boom");
        }
        _ => panic!("expected a fatal decision"),
    }
}

#[test]
fn run_keeps_waiting_while_tasks_run_and_ends_when_all_succeed() {
    let d = shutdown_decision(false, TaskReport::Running, TaskReport::Running, TaskReport::Running);
    assert!(matches!(d, RunDecision::KeepWaiting));
    let d = shutdown_decision(
        false,
        TaskReport::Succeeded,
        TaskReport::Succeeded,
        TaskReport::Succeeded,
    );
    assert!(matches!(d, RunDecision::Success));
}

#[test]
fn prometheus_requests_are_forwarded_with_the_prefix_stripped() {
    match route_request("/prometheus/graph", false) {
        RouteDecision::Forward { backend, target } => {
            assert_eq!(backend, Backend::Prometheus);
            assert_eq!(target, "http://127.0.0.1:9090/graph");
        }
        _ => panic!("expected a forward"),
    }
}

#[test]
fn failed_upstream_yields_502() {
    // No upstream listening: the proxy answers 502, it does not hang or
    // crash, and a later upstream answer is relayed verbatim.
    assert_eq!(proxy_response_status(None), 502);
    assert_eq!(proxy_response_status(Some(200)), 200);
    assert_eq!(proxy_response_status(Some(404)), 404);
}

#[test]
fn pushgateway_routes_only_when_enabled() {
    assert!(matches!(route_request("/pushgateway/metrics", false), RouteDecision::NotFound));
    match route_request("/pushgateway/metrics", true) {
        RouteDecision::Forward { backend, target } => {
            assert_eq!(backend, Backend::Pushgateway);
            assert_eq!(target, "http://127.0.0.1:9091/metrics");
        }
        _ => panic!("expected a forward"),
    }
}

#[test]
fn explorer_assets_are_served_with_the_prefix_stripped() {
    match route_request("/explorer/index.html", false) {
        RouteDecision::Explorer { asset } => assert_eq!(asset, "index.html"),
        _ => panic!("expected an explorer asset"),
    }
    assert!(matches!(route_request("/somewhere/else", true), RouteDecision::NotFound));
}

#[test]
fn health_probe_accepts_only_success_statuses() {
    assert!(endpoint_health_ok(Some(200)));
    assert!(endpoint_health_ok(Some(204)));
    assert!(!endpoint_health_ok(Some(301)));
    assert!(!endpoint_health_ok(Some(500)));
    assert!(!endpoint_health_ok(None));
}

#[test]
fn successful_exit_is_ok() {
    let out = ProcessOutput {
        status: ExitStatus { success: true, code: Some(0) },
        stdout: String::new(),
        stderr: String::new(),
    };
    assert!(classify_exit(out).is_ok());
}

#[test]
fn abnormal_exit_carries_the_captured_output_verbatim() {
    let out = ProcessOutput {
        status: ExitStatus { success: false, code: Some(2) },
        stdout: "some progress".to_string(),
        stderr: "bind: address already in use".to_string(),
    };
    match classify_exit(out) {
        Err(SupervisorError::ProcessExit { code, stdout, stderr }) => {
            assert_eq!(code, Some(2));
            assert_eq!(stdout, "some progress");
            assert_eq!(stderr, "bind: address already in use");
        }
        _ => panic!("expected a process-exit error"),
    }
}

#[test]
fn prometheus_launch_args_are_exact() {
    let args = prometheus_launch_args("/tmp/run/prometheus.yml", "127.0.0.1:6789");
    assert_eq!(
        args,
        vec![
            "--config.file=/tmp/run/prometheus.yml".to_string(),
            "--web.listen-address=:9090".to_string(),
            "--web.enable-lifecycle".to_string(),
            "--web.external-url=http://127.0.0.1:6789/prometheus".to_string(),
            "--web.enable-remote-write-receiver".to_string(),
        ]
    );
}

#[test]
fn pushgateway_launch_args_are_exact() {
    let args = pushgateway_launch_args("localhost:6789");
    assert_eq!(
        args,
        vec![
            "--web.listen-address=:9091".to_string(),
            "--web.external-url=http://localhost:6789/pushgateway".to_string(),
        ]
    );
}

#[test]
fn runtime_dir_name_is_prefixed_and_random() {
    let a = prometheus_runtime_dir_name();
    let b = prometheus_runtime_dir_name();
    assert_eq!(a.len(), 20);
    assert!(a.starts_with("am-prometheus-"));
    assert!(b.starts_with("am-prometheus-"));
}

#[test]
fn binary_name_depends_on_the_platform() {
    assert_eq!(prometheus_binary_name(false), "prometheus");
    assert_eq!(prometheus_binary_name(true), "prometheus.exe");
}
