//! The issuance state machine: one ACME issuance attempt, from account
//! registration through order, challenge, validation polling and
//! finalization, to the downloaded certificate — or to the errored terminal
//! state on any authority rejection, transport failure or poll timeout.
//!
//! The machine decides; it performs no network work itself. A driver loop
//! performs the action the current state calls for, feeds the outcome back
//! as an event, and stops at a terminal state. A failed attempt never
//! touches the certificate store: the previous identity keeps serving.

use vstd::prelude::*;
use crate::identity::CertifiedIdentity;
use crate::store::CertStore;
use crate::responder::ChallengeMaterial;
use crate::responder::TokenMap;
use crate::responder::lemma_lookup_first;
use crate::responder::materials_entries;

verus! {

/// Which proof of domain control the listener was built to give. Selected
/// once at build time, never negotiated per domain.
#[derive(Clone, Copy, PartialEq, Eq, Structural, Debug)]
pub enum ChallengeType {
    Http01,
    TlsAlpn01,
}

/// The authority's view of the order, as the poll step reports it.
#[derive(Clone, Copy, PartialEq, Eq, Structural, Debug)]
pub enum OrderStatus {
    Pending,
    Processing,
    Valid,
    Invalid,
}

/// Where one issuance attempt stands.
#[derive(Clone, Copy, PartialEq, Eq, Structural, Debug)]
pub enum IssuanceState {
    Start,
    AccountReady,
    OrderCreated,
    ChallengeSubmitted,
    Validating { polls_left: u64 },
    Finalizing,
    CertificateReady,
    Errored,
}

/// What the outside world reported back after the last action.
pub enum AcmeEvent {
    AccountRegistered,
    OrderAccepted { materials: Vec<ChallengeMaterial> },
    ChallengesServed,
    PollStatus { status: OrderStatus },
    Finalized { identity: CertifiedIdentity },
    AuthorityRejected,
    TransportFailed,
}

/// What the driver loop must do next for the current state.
#[derive(Clone, Copy, PartialEq, Eq, Structural, Debug)]
pub enum AcmeAction {
    RegisterAccount,
    SubmitOrder,
    SubmitChallenges,
    PollOrder,
    SubmitCsr,
    PublishIdentity,
    Abort,
}

/// A state from which the attempt cannot move: the attempt is over, for
/// good or ill.
pub open spec fn spec_is_terminal(s: IssuanceState) -> bool {
    s is CertificateReady || s is Errored
}

/// The next state after `e` arrives in `s`. Any event a state does not
/// expect — a rejection, a transport failure, or a protocol violation —
/// ends the attempt in `Errored`.
pub open spec fn spec_step(s: IssuanceState, e: AcmeEvent, max_polls: u64) -> IssuanceState {
    match (s, e) {
        (IssuanceState::Start, AcmeEvent::AccountRegistered) => IssuanceState::AccountReady,
        (IssuanceState::AccountReady, AcmeEvent::OrderAccepted { .. }) => IssuanceState::OrderCreated,
        (IssuanceState::OrderCreated, AcmeEvent::ChallengesServed) => IssuanceState::ChallengeSubmitted,
        (IssuanceState::ChallengeSubmitted, AcmeEvent::PollStatus { status }) => match status {
            OrderStatus::Valid => IssuanceState::Finalizing,
            OrderStatus::Invalid => IssuanceState::Errored,
            _ => IssuanceState::Validating { polls_left: max_polls },
        },
        (IssuanceState::Validating { polls_left }, AcmeEvent::PollStatus { status }) => match status {
            OrderStatus::Valid => IssuanceState::Finalizing,
            OrderStatus::Invalid => IssuanceState::Errored,
            _ => if polls_left == 0 {
                IssuanceState::Errored
            } else {
                IssuanceState::Validating { polls_left: (polls_left - 1) as u64 }
            },
        },
        (IssuanceState::Finalizing, AcmeEvent::Finalized { .. }) => IssuanceState::CertificateReady,
        _ => IssuanceState::Errored,
    }
}

/// The action a driver loop must take in state `s`.
pub open spec fn spec_next_action(s: IssuanceState) -> AcmeAction {
    match s {
        IssuanceState::Start => AcmeAction::RegisterAccount,
        IssuanceState::AccountReady => AcmeAction::SubmitOrder,
        IssuanceState::OrderCreated => AcmeAction::SubmitChallenges,
        IssuanceState::ChallengeSubmitted => AcmeAction::PollOrder,
        IssuanceState::Validating { .. } => AcmeAction::PollOrder,
        IssuanceState::Finalizing => AcmeAction::SubmitCsr,
        IssuanceState::CertificateReady => AcmeAction::PublishIdentity,
        IssuanceState::Errored => AcmeAction::Abort,
    }
}

/// One issuance attempt: the state, the challenge materials of the current
/// order, the HTTP-01 responder map the materials are served through, and
/// the issued identity once the attempt succeeds.
pub struct IssuanceDriver {
    pub state: IssuanceState,
    pub max_polls: u64,
    pub materials: Vec<ChallengeMaterial>,
    pub tokens: TokenMap,
    pub issued: Option<CertifiedIdentity>,
}

impl IssuanceDriver {
    /// The driver's invariant. Challenge material is served exactly while
    /// the order is being validated (from challenge submission until the
    /// order leaves validation), and an issued identity exists exactly in
    /// the successful terminal state.
    pub open spec fn inv(self) -> bool {
        &&& (self.state is ChallengeSubmitted || self.state is Validating) ==> self.tokens.view()
            == materials_entries(self.materials@)
        &&& !(self.state is ChallengeSubmitted || self.state is Validating) ==> self.tokens.view()
            == Seq::<(Seq<char>, Seq<char>)>::empty()
        &&& (self.issued is Some <==> self.state is CertificateReady)
    }

    /// A fresh attempt: nothing served, nothing issued, `max_polls` status
    /// polls allowed after the first before the attempt times out.
    pub fn new(max_polls: u64) -> (r: IssuanceDriver)
        ensures
            r.state == IssuanceState::Start,
            r.max_polls == max_polls,
            r.materials@.len() == 0,
            r.tokens.view() == Seq::<(Seq<char>, Seq<char>)>::empty(),
            r.issued is None,
            r.inv(),
    {
        IssuanceDriver {
            state: IssuanceState::Start,
            max_polls,
            materials: Vec::new(),
            tokens: TokenMap::new(),
            issued: None,
        }
    }

    /// The action to take next.
    pub fn next_action(&self) -> (a: AcmeAction)
        ensures
            a == spec_next_action(self.state),
    {
        match self.state {
            IssuanceState::Start => AcmeAction::RegisterAccount,
            IssuanceState::AccountReady => AcmeAction::SubmitOrder,
            IssuanceState::OrderCreated => AcmeAction::SubmitChallenges,
            IssuanceState::ChallengeSubmitted => AcmeAction::PollOrder,
            IssuanceState::Validating { .. } => AcmeAction::PollOrder,
            IssuanceState::Finalizing => AcmeAction::SubmitCsr,
            IssuanceState::CertificateReady => AcmeAction::PublishIdentity,
            IssuanceState::Errored => AcmeAction::Abort,
        }
    }

    /// Feed the outcome of the last action back into the machine. The new
    /// state is exactly `spec_step`; challenge materials are recorded when
    /// the order is accepted, served from challenge submission through
    /// validation, and withdrawn the moment the order leaves validation;
    /// the issued identity is held exactly on success.
    pub fn on_event(&mut self, event: AcmeEvent)
        requires
            !spec_is_terminal(old(self).state),
            old(self).inv(),
        ensures
            final(self).max_polls == old(self).max_polls,
            final(self).state == spec_step(old(self).state, event, old(self).max_polls),
            final(self).inv(),
            final(self).state is OrderCreated ==> (event matches AcmeEvent::OrderAccepted {
                materials,
            } && final(self).materials == materials),
            (final(self).state is ChallengeSubmitted || final(self).state is Validating)
                ==> final(self).materials == old(self).materials,
            !(final(self).state is OrderCreated || final(self).state is ChallengeSubmitted
                || final(self).state is Validating) ==> final(self).materials@.len() == 0,
            final(self).state is CertificateReady ==> (event matches AcmeEvent::Finalized {
                identity,
            } && final(self).issued == Some(identity)),
    {
        let s = self.state;
        match (s, event) {
            (IssuanceState::Start, AcmeEvent::AccountRegistered) => {
                self.state = IssuanceState::AccountReady;
                self.materials = Vec::new();
                self.tokens.clear();
            },
            (IssuanceState::AccountReady, AcmeEvent::OrderAccepted { materials }) => {
                self.state = IssuanceState::OrderCreated;
                self.materials = materials;
                self.tokens.clear();
            },
            (IssuanceState::OrderCreated, AcmeEvent::ChallengesServed) => {
                self.state = IssuanceState::ChallengeSubmitted;
                self.tokens.install(&self.materials);
            },
            (IssuanceState::ChallengeSubmitted, AcmeEvent::PollStatus { status }) => {
                match status {
                    OrderStatus::Valid => {
                        self.state = IssuanceState::Finalizing;
                        self.materials = Vec::new();
                        self.tokens.clear();
                    },
                    OrderStatus::Invalid => {
                        self.state = IssuanceState::Errored;
                        self.materials = Vec::new();
                        self.tokens.clear();
                    },
                    _ => {
                        self.state = IssuanceState::Validating { polls_left: self.max_polls };
                    },
                }
            },
            (IssuanceState::Validating { polls_left }, AcmeEvent::PollStatus { status }) => {
                match status {
                    OrderStatus::Valid => {
                        self.state = IssuanceState::Finalizing;
                        self.materials = Vec::new();
                        self.tokens.clear();
                    },
                    OrderStatus::Invalid => {
                        self.state = IssuanceState::Errored;
                        self.materials = Vec::new();
                        self.tokens.clear();
                    },
                    _ => {
                        if polls_left == 0 {
                            self.state = IssuanceState::Errored;
                            self.materials = Vec::new();
                            self.tokens.clear();
                        } else {
                            self.state = IssuanceState::Validating {
                                polls_left: polls_left - 1,
                            };
                        }
                    },
                }
            },
            (IssuanceState::Finalizing, AcmeEvent::Finalized { identity }) => {
                self.state = IssuanceState::CertificateReady;
                self.materials = Vec::new();
                self.tokens.clear();
                self.issued = Some(identity);
            },
            _ => {
                self.state = IssuanceState::Errored;
                self.materials = Vec::new();
                self.tokens.clear();
            },
        }
    }
    /// Publish the attempt's outcome into the store. A successful attempt
    /// installs the issued identity, whole; any other outcome leaves the
    /// store untouched, so the previous identity keeps serving while the
    /// scheduler's next tick retries from scratch.
    pub fn publish(self, store: &mut CertStore) -> (published: bool)
        requires
            self.inv(),
        ensures
            self.state is CertificateReady ==> published && final(store).spec_get() == Some(
                self.issued.unwrap(),
            ),
            !(self.state is CertificateReady) ==> !published && *final(store) == *old(store),
    {
        match self.issued {
            Some(id) => {
                store.set(id);
                true
            },
            None => false,
        }
    }
}

/// While an order is being validated (from challenge submission until it
/// leaves validation), the HTTP-01 responder returns, for each installed
/// challenge token not shadowed by an earlier equal token, exactly that
/// challenge's key authorization.
pub proof fn lemma_validating_serves_key_auth(d: IssuanceDriver, i: int)
    requires
        d.inv(),
        d.state is ChallengeSubmitted || d.state is Validating,
        0 <= i < d.materials@.len(),
        forall|j: int| 0 <= j < i ==> (#[trigger] d.materials@[j]).token@ != d.materials@[i].token@,
    ensures
        d.tokens.spec_lookup(d.materials@[i].token@) == Some(d.materials@[i].key_auth@),
{
    let entries = materials_entries(d.materials@);
    assert(entries[i] == (d.materials@[i].token@, d.materials@[i].key_auth@));
    assert forall|j: int| 0 <= j < i implies (#[trigger] entries[j]).0 != entries[i].0 by {
        assert(entries[j] == (d.materials@[j].token@, d.materials@[j].key_auth@));
    }
    lemma_lookup_first(entries, i);
}

/// Once the attempt leaves validation — the order finalizing, issued, or
/// errored, or not yet submitted — the responder returns nothing for any
/// token.
pub proof fn lemma_resolved_serves_nothing(d: IssuanceDriver, t: Seq<char>)
    requires
        d.inv(),
        !(d.state is ChallengeSubmitted || d.state is Validating),
    ensures
        d.tokens.spec_lookup(t) is None,
{
    assert(d.tokens.view().len() == 0);
}

} // verus!
