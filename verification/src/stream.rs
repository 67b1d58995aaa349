//! Deferred handshake completion for an accepted stream. Acceptance admits
//! the connection cheaply; the cryptographic handshake is driven lazily, on
//! the stream's first read or write, so a client that never sends data
//! stalls only its own stream. This module tracks whether the handshake has
//! resolved, and I/O is admitted exactly from that point on.

use vstd::prelude::*;

verus! {

/// Tracks whether an accepted stream's TLS handshake has completed.
pub struct HandshakeGate {
    ready: bool,
}

impl HandshakeGate {
    /// The handshake has resolved and I/O may proceed.
    pub closed spec fn spec_ready(self) -> bool {
        self.ready
    }

    /// A freshly accepted stream: the handshake has not been driven yet.
    pub fn new() -> (r: HandshakeGate)
        ensures
            !r.spec_ready(),
    {
        HandshakeGate { ready: false }
    }

    /// The state after one poll of the handshake that completed (or not).
    /// Readiness is monotonic: once resolved, it stays resolved, and later
    /// polls of the handshake are skipped.
    pub closed spec fn spec_after_poll(self, handshake_complete: bool) -> HandshakeGate {
        HandshakeGate { ready: self.ready || handshake_complete }
    }

    /// Record one drive of the pending handshake before an I/O operation:
    /// `handshake_complete` says whether it resolved this time. Returns
    /// whether the I/O may proceed now; when it may not, the operation
    /// reports itself pending and is retried later.
    pub fn on_poll(&mut self, handshake_complete: bool) -> (io_ready: bool)
        ensures
            *final(self) == old(self).spec_after_poll(handshake_complete),
            io_ready == final(self).spec_ready(),
            old(self).spec_ready() ==> final(self).spec_ready(),
    {
        if !self.ready && handshake_complete {
            self.ready = true;
        }
        self.ready
    }

    /// Whether I/O is currently admitted.
    pub fn io_permitted(&self) -> (r: bool)
        ensures
            r == self.spec_ready(),
    {
        self.ready
    }
}

/// Once a gate is ready, no later poll outcome can make it unready: the
/// handshake resolves once and the stream stays usable.
pub proof fn lemma_gate_monotonic(g: HandshakeGate, outcomes: Seq<bool>)
    requires
        g.spec_ready(),
    ensures
        spec_poll_all(g, outcomes).spec_ready(),
    decreases outcomes.len(),
{
    if outcomes.len() > 0 {
        lemma_gate_monotonic(g.spec_after_poll(outcomes[0]), outcomes.drop_first());
    }
}

/// The state after a whole sequence of handshake polls.
pub open spec fn spec_poll_all(g: HandshakeGate, outcomes: Seq<bool>) -> HandshakeGate
    decreases outcomes.len(),
{
    if outcomes.len() == 0 {
        g
    } else {
        spec_poll_all(g.spec_after_poll(outcomes[0]), outcomes.drop_first())
    }
}

} // verus!
