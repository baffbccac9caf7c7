//! The task coordinator's shutdown policy.
//!
//! The coordinator runs the proxy and one installer–supervisor chain per
//! enabled backend concurrently and decides, from what has been observed
//! so far, whether the run keeps waiting, ends cleanly, or ends with the
//! first fatal failure. The policy is a pure function of its inputs, so
//! repeated runs with the same observations decide the same way.

use vstd::prelude::*;

verus! {

/// What one concurrent task has reported so far.
pub enum TaskReport {
    /// Still running.
    Running,
    /// Completed without an error.
    Succeeded,
    /// Completed with an error, carried verbatim.
    Failed(String),
}

/// The tasks the coordinator supervises.
#[derive(Clone, Copy, PartialEq, Eq, Structural, Debug)]
pub enum TaskName {
    WebServer,
    Prometheus,
    Pushgateway,
}

/// The coordinator's decision.
pub enum RunDecision {
    /// No task has failed, not everything is done, and no interrupt was
    /// observed: keep waiting.
    KeepWaiting,
    /// End the run cleanly, with a successful exit.
    Success,
    /// End the run with the first fatal failure, naming the task.
    Fatal { task: TaskName, message: String },
}

/// The shutdown policy. The interrupt is checked first and wins
/// unconditionally; otherwise the first failed task, in the fixed order
/// web server, scrape engine, push gateway, is fatal; otherwise the run
/// ends cleanly only once every task has succeeded.
pub open spec fn spec_decision(
    interrupted: bool,
    web: TaskReport,
    prometheus: TaskReport,
    pushgateway: TaskReport,
) -> RunDecision {
    if interrupted {
        RunDecision::Success
    } else if web is Failed {
        RunDecision::Fatal { task: TaskName::WebServer, message: web->Failed_0 }
    } else if prometheus is Failed {
        RunDecision::Fatal { task: TaskName::Prometheus, message: prometheus->Failed_0 }
    } else if pushgateway is Failed {
        RunDecision::Fatal { task: TaskName::Pushgateway, message: pushgateway->Failed_0 }
    } else if web is Succeeded && prometheus is Succeeded && pushgateway is Succeeded {
        RunDecision::Success
    } else {
        RunDecision::KeepWaiting
    }
}

/// Decides how the run proceeds, given whether an operator interrupt has
/// been observed and what each task has reported.
pub fn shutdown_decision(
    interrupted: bool,
    web: TaskReport,
    prometheus: TaskReport,
    pushgateway: TaskReport,
) -> (r: RunDecision)
    ensures
        r == spec_decision(interrupted, web, prometheus, pushgateway),
{
    if interrupted {
        return RunDecision::Success;
    }
    match web {
        TaskReport::Failed(m) => {
            return RunDecision::Fatal { task: TaskName::WebServer, message: m };
        },
        _ => {},
    }
    match prometheus {
        TaskReport::Failed(m) => {
            return RunDecision::Fatal { task: TaskName::Prometheus, message: m };
        },
        _ => {},
    }
    match pushgateway {
        TaskReport::Failed(m) => {
            return RunDecision::Fatal { task: TaskName::Pushgateway, message: m };
        },
        _ => {},
    }
    let web_done = match web {
        TaskReport::Succeeded => true,
        _ => false,
    };
    let prometheus_done = match prometheus {
        TaskReport::Succeeded => true,
        _ => false,
    };
    let pushgateway_done = match pushgateway {
        TaskReport::Succeeded => true,
        _ => false,
    };
    if web_done && prometheus_done && pushgateway_done {
        RunDecision::Success
    } else {
        RunDecision::KeepWaiting
    }
}

/// Shutdown priority: an operator interrupt always wins. Whatever the
/// tasks report — even a backend that has already failed — the decision
/// under an interrupt is a clean success, and, the policy being a pure
/// function, it is the same on every run with the same observations.
pub proof fn lemma_interrupt_wins(web: TaskReport, prometheus: TaskReport, pushgateway: TaskReport)
    ensures
        spec_decision(true, web, prometheus, pushgateway) == RunDecision::Success,
{
}

/// A failure observed without an interrupt is fatal and names the task
/// that failed: the coordinator never keeps waiting past a failed task
/// and never reports success while one has failed.
pub proof fn lemma_failure_is_fatal(
    web: TaskReport,
    prometheus: TaskReport,
    pushgateway: TaskReport,
)
    requires
        web is Failed || prometheus is Failed || pushgateway is Failed,
    ensures
        spec_decision(false, web, prometheus, pushgateway) is Fatal,
{
}

} // verus!
