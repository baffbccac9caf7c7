//! The process supervisor's decisions: the names of the scoped working
//! directories, the exact argument lists the backends are launched with,
//! and the classification of a finished child process.
//!
//! Spawning, waiting and capturing output are I/O done by the caller; a
//! child that exited abnormally is surfaced with its captured output
//! verbatim, and a spawn failure is a distinct error.

use vstd::prelude::*;
use vstd::string::*;

verus! {

/// The exit of a child process: whether it succeeded, and its exit code
/// when the platform reported one.
#[derive(Clone, Debug)]
pub struct ExitStatus {
    pub success: bool,
    pub code: Option<i32>,
}

/// A finished child process: its exit status and its captured streams.
#[derive(Debug)]
pub struct ProcessOutput {
    pub status: ExitStatus,
    pub stdout: String,
    pub stderr: String,
}

/// Why a supervised backend run failed.
#[derive(Debug)]
pub enum SupervisorError {
    /// The child could not be started at all.
    Spawn { message: String },
    /// The child exited abnormally; its captured output is carried
    /// verbatim so the operator can see the backend's own reason.
    ProcessExit { code: Option<i32>, stdout: String, stderr: String },
}

/// Classifies a finished child: success exactly when the child's exit
/// status was success, and otherwise an error carrying the exit code and
/// the captured output verbatim.
pub fn classify_exit(output: ProcessOutput) -> (r: Result<(), SupervisorError>)
    ensures
        match r {
            Ok(()) => output.status.success,
            Err(SupervisorError::ProcessExit { code, stdout, stderr }) => {
                &&& !output.status.success
                &&& code == output.status.code
                &&& stdout == output.stdout
                &&& stderr == output.stderr
            },
            Err(SupervisorError::Spawn { .. }) => false,
        },
{
    if output.status.success {
        Ok(())
    } else {
        Err(SupervisorError::ProcessExit {
            code: output.status.code,
            stdout: output.stdout,
            stderr: output.stderr,
        })
    }
}

/// Relies on rand's `Alphanumeric` distribution through
/// `DistString::sample_string`: a string of exactly the requested number
/// of characters, sampled independently of everything in this library.
#[verifier::external_body]
fn random_alphanumeric_6() -> (r: String)
    ensures
        r@.len() == 6,
{
    rand::distributions::Alphanumeric.sample_string(&mut rand::thread_rng(), 6)
}

/// The name of the per-run directory the generated configuration is
/// written under: `am-prometheus-` followed by six random characters, so
/// concurrent runs do not collide.
pub fn prometheus_runtime_dir_name() -> (r: String)
    ensures
        r@.len() == 20,
        r@.subrange(0, 14) == "am-prometheus-"@,
{
    proof {
        reveal_strlit("am-prometheus-");
    }
    let mut r = String::from_str("am-prometheus-");
    let suffix = random_alphanumeric_6();
    r.append(suffix.as_str());
    proof {
        assert(r@.subrange(0, 14) =~= "am-prometheus-"@);
    }
    r
}

/// The file name of the scrape engine's binary on the given platform.
pub fn prometheus_binary_name(windows: bool) -> (r: &'static str)
    ensures
        if windows {
            r@ == "prometheus.exe"@
        } else {
            r@ == "prometheus"@
        },
{
    if windows {
        "prometheus.exe"
    } else {
        "prometheus"
    }
}

/// The arguments the scrape engine is launched with: its generated
/// configuration file, the fixed internal listen port, lifecycle and
/// remote-write flags, and the external URL built from the front door's
/// authority under the `/prometheus` prefix.
pub fn prometheus_launch_args(config_file_path: &str, external_authority: &str) -> (r: Vec<String>)
    ensures
        r@.len() == 5,
        r@[0]@ == "--config.file="@ + config_file_path@,
        r@[1]@ == "--web.listen-address=:9090"@,
        r@[2]@ == "--web.enable-lifecycle"@,
        r@[3]@ == "--web.external-url=http://"@ + external_authority@ + "/prometheus"@,
        r@[4]@ == "--web.enable-remote-write-receiver"@,
{
    let mut config_arg = String::from_str("--config.file=");
    config_arg.append(config_file_path);
    proof {
        assert(config_arg@ =~= "--config.file="@ + config_file_path@);
    }
    let mut url_arg = String::from_str("--web.external-url=http://");
    url_arg.append(external_authority);
    url_arg.append("/prometheus");
    proof {
        assert(url_arg@ =~= "--web.external-url=http://"@ + external_authority@ + "/prometheus"@);
    }
    let mut r: Vec<String> = Vec::new();
    r.push(config_arg);
    r.push(String::from_str("--web.listen-address=:9090"));
    r.push(String::from_str("--web.enable-lifecycle"));
    r.push(url_arg);
    r.push(String::from_str("--web.enable-remote-write-receiver"));
    r
}

/// The arguments the push gateway is launched with: its fixed internal
/// listen port and the external URL built from the front door's authority
/// under the `/pushgateway` prefix.
pub fn pushgateway_launch_args(external_authority: &str) -> (r: Vec<String>)
    ensures
        r@.len() == 2,
        r@[0]@ == "--web.listen-address=:9091"@,
        r@[1]@ == "--web.external-url=http://"@ + external_authority@ + "/pushgateway"@,
{
    let mut url_arg = String::from_str("--web.external-url=http://");
    url_arg.append(external_authority);
    url_arg.append("/pushgateway");
    proof {
        assert(url_arg@ =~= "--web.external-url=http://"@ + external_authority@ + "/pushgateway"@);
    }
    let mut r: Vec<String> = Vec::new();
    r.push(String::from_str("--web.listen-address=:9091"));
    r.push(url_arg);
    r
}

} // verus!

use rand::distributions::DistString;
