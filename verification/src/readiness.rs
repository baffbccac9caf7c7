//! The readiness gate: a single-slot, single-writer broadcast of the
//! externally reachable address of the front door.
//!
//! The proxy publishes the address it actually bound, exactly once, after
//! binding; every backend launcher waits on that broadcast before it
//! builds its external-URL argument. The state machine here is its whole
//! behaviour; the suspension itself is left to the caller's runtime.

use vstd::prelude::*;
use vstd::string::*;

verus! {

/// A socket address held as plain parts: a host and a decimal port.
#[derive(Clone, Debug)]
pub struct SocketAddress {
    pub host: String,
    pub port: String,
}

impl SocketAddress {
    /// A well-formed address has a non-empty host and a non-empty digit
    /// port whose value fits a port number.
    pub open spec fn wf(self) -> bool {
        &&& self.host@.len() > 0
        &&& self.port@.len() > 0
        &&& crate::text::all_digits(self.port@)
        &&& crate::text::dec_value(self.port@) <= 65535
    }

    /// The `host:port` rendering of the address.
    pub fn authority(&self) -> (r: String)
        ensures
            r@ == self.host@ + ":"@ + self.port@,
    {
        let mut r = String::new();
        r.append(self.host.as_str());
        r.append(":");
        r.append(self.port.as_str());
        proof {
            assert(r@ =~= self.host@ + ":"@ + self.port@);
        }
        r
    }
}

/// The broadcast's state: nothing published yet, the bound address
/// published once, or the publisher gone without publishing.
pub enum GateState {
    /// Initial state: the proxy has not bound yet.
    Unpublished,
    /// The proxy bound its listen socket and published the address.
    Published(SocketAddress),
    /// The publisher was dropped before publishing (the bind failed);
    /// waiting readers must observe this, not hang forever.
    Closed,
}

/// What a waiting reader observes of a gate state.
pub enum WaitOutcome {
    /// Nothing published yet: the reader stays suspended.
    Pending,
    /// The published address: the reader may proceed.
    Ready(SocketAddress),
    /// The publisher is gone without publishing: a terminal error.
    Failed,
}

/// What a reader observes in each gate state.
pub open spec fn spec_wait_outcome(s: GateState) -> WaitOutcome {
    match s {
        GateState::Unpublished => WaitOutcome::Pending,
        GateState::Published(a) => WaitOutcome::Ready(a),
        GateState::Closed => WaitOutcome::Failed,
    }
}

/// Publishing resolves an unpublished gate to exactly the bound address.
pub fn publish(s: GateState, bound: SocketAddress) -> (r: GateState)
    requires
        s is Unpublished,
    ensures
        r == GateState::Published(bound),
{
    GateState::Published(bound)
}

/// Dropping the publisher without publishing closes an unpublished gate.
pub fn close(s: GateState) -> (r: GateState)
    requires
        s is Unpublished,
    ensures
        r == GateState::Closed,
{
    GateState::Closed
}

/// What a waiting reader observes.
pub fn wait_outcome(s: GateState) -> (r: WaitOutcome)
    ensures
        r == spec_wait_outcome(s),
{
    match s {
        GateState::Unpublished => WaitOutcome::Pending,
        GateState::Published(a) => WaitOutcome::Ready(a),
        GateState::Closed => WaitOutcome::Failed,
    }
}

/// Readiness ordering: a reader is handed an address exactly when the
/// publisher has published that very address. No backend launch can
/// observe a ready address before the proxy has bound and published it;
/// before publication a reader only ever observes `Pending`, and after a
/// failed bind only `Failed`.
pub proof fn lemma_ready_only_after_publish(s: GateState)
    ensures
        forall|a: SocketAddress| spec_wait_outcome(s) == WaitOutcome::Ready(a) <==> s
            == GateState::Published(a),
        s is Unpublished ==> spec_wait_outcome(s) == WaitOutcome::Pending,
        s is Closed ==> spec_wait_outcome(s) == WaitOutcome::Failed,
{
}

/// The authority a backend embeds in its external URL: the published
/// address, or the default front-door address after a failed bind.
pub fn external_authority(outcome: WaitOutcome) -> (r: String)
    ensures
        match outcome {
            WaitOutcome::Ready(a) => r@ == a.host@ + ":"@ + a.port@,
            WaitOutcome::Pending => r@ == "localhost:6789"@,
            WaitOutcome::Failed => r@ == "localhost:6789"@,
        },
{
    match outcome {
        WaitOutcome::Ready(a) => a.authority(),
        WaitOutcome::Pending => {
            let r = String::from_str("localhost:6789");
            r
        },
        WaitOutcome::Failed => {
            let r = String::from_str("localhost:6789");
            r
        },
    }
}

} // verus!
