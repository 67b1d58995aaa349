//! The renewal scheduler's decision rule. The background loop owns only a
//! weak reference to the certificate store; on every wake it asks whether
//! the store still has a strong owner and whether the stored identity is
//! about to expire, and this module decides what the tick does. The loop
//! itself — sleeping, upgrading the weak reference, running one issuance
//! attempt — is plain driver code around these decisions.

use vstd::prelude::*;

verus! {

/// What one scheduler wake does.
#[derive(Clone, Copy, PartialEq, Eq, Structural, Debug)]
pub enum TickDecision {
    /// The store's last strong owner is gone: the loop terminates, silently.
    Stop,
    /// The identity is missing or expires within the threshold: run one
    /// issuance attempt, then sleep.
    Renew,
    /// The identity is fresh: sleep until the next wake.
    Sleep,
}

/// The decision for a wake that found the store alive (`store_alive`) and
/// the identity expiring (`expiring`, per `CertStore::will_expire`).
pub open spec fn spec_tick(store_alive: bool, expiring: bool) -> TickDecision {
    if !store_alive {
        TickDecision::Stop
    } else if expiring {
        TickDecision::Renew
    } else {
        TickDecision::Sleep
    }
}

/// Decide one scheduler wake.
pub fn scheduler_tick(store_alive: bool, expiring: bool) -> (d: TickDecision)
    ensures
        d == spec_tick(store_alive, expiring),
        d is Stop <==> !store_alive,
{
    if !store_alive {
        TickDecision::Stop
    } else if expiring {
        TickDecision::Renew
    } else {
        TickDecision::Sleep
    }
}

/// Once the store's last strong owner is dropped, the very next wake — at
/// most one poll interval away — decides `Stop`, whatever the freshness
/// check would have said; and no earlier wake decides `Stop` while an owner
/// remains.
pub proof fn lemma_scheduler_self_cancels(expiring: bool)
    ensures
        spec_tick(false, expiring) == TickDecision::Stop,
        forall|e: bool| spec_tick(true, e) != TickDecision::Stop,
{
}

} // verus!
