use acme_tls::{
    AcmeAction, AcmeEvent, Builder, CertCache, CertStore, CertifiedIdentity, ChallengeMaterial,
    IssuanceDriver, IssuanceState, OrderStatus,
};

fn material() -> ChallengeMaterial {
    ChallengeMaterial {
        domain: "example.com".to_owned(),
        token: "tok-1".to_owned(),
        key_auth: "tok-1.thumbprint".to_owned(),
        alpn_cert: None,
    }
}

fn issued_identity() -> CertifiedIdentity {
    CertifiedIdentity::new(vec![vec![1, 2, 3]], vec![4, 5, 6], 10_000_000)
}

#[test]
fn happy_path_reaches_certificate_ready_and_freshness_flips_at_expiry() {
    // Build with one domain, HTTP-01 selected, and an empty cache.
    let config = Builder::new()
        .add_domain("example.com".to_owned())
        .http01_challege()
        .build()
        .unwrap();
    let cache = CertCache::new();
    assert!(cache.read_key(&config.cache_key()).is_none());
    assert!(cache.read_cert(&config.cache_key()).is_none());

    let mut store = CertStore::new();
    let mut d = IssuanceDriver::new(8);
    assert_eq!(d.next_action(), AcmeAction::RegisterAccount);

    d.on_event(AcmeEvent::AccountRegistered);
    assert_eq!(d.state, IssuanceState::AccountReady);
    assert_eq!(d.next_action(), AcmeAction::SubmitOrder);

    d.on_event(AcmeEvent::OrderAccepted { materials: vec![material()] });
    assert_eq!(d.state, IssuanceState::OrderCreated);
    assert_eq!(d.next_action(), AcmeAction::SubmitChallenges);
    // Not served yet: readiness has not been signaled.
    assert!(d.tokens.lookup(&"tok-1".to_owned()).is_none());

    d.on_event(AcmeEvent::ChallengesServed);
    assert_eq!(d.state, IssuanceState::ChallengeSubmitted);
    assert_eq!(d.next_action(), AcmeAction::PollOrder);
    // Serving: the exact key authorization for the known token, nothing else.
    assert_eq!(d.tokens.lookup(&"tok-1".to_owned()).unwrap(), "tok-1.thumbprint");
    assert!(d.tokens.lookup(&"tok-2".to_owned()).is_none());

    d.on_event(AcmeEvent::PollStatus { status: OrderStatus::Pending });
    assert!(matches!(d.state, IssuanceState::Validating { .. }));
    // Still validating: still served.
    assert_eq!(d.tokens.lookup(&"tok-1".to_owned()).unwrap(), "tok-1.thumbprint");

    d.on_event(AcmeEvent::PollStatus { status: OrderStatus::Valid });
    assert_eq!(d.state, IssuanceState::Finalizing);
    assert_eq!(d.next_action(), AcmeAction::SubmitCsr);
    // Validation over: the token map serves nothing.
    assert!(d.tokens.lookup(&"tok-1".to_owned()).is_none());

    d.on_event(AcmeEvent::Finalized { identity: issued_identity() });
    assert_eq!(d.state, IssuanceState::CertificateReady);
    assert_eq!(d.next_action(), AcmeAction::PublishIdentity);

    assert!(d.publish(&mut store));
    assert_eq!(store.get().unwrap().cert_chain, vec![vec![1, 2, 3]]);
    // Fresh for a 30-day threshold right after issuance...
    assert!(!store.will_expire(1_000_000, 2_592_000));
    // ...and expiring once the clock passes the validity end.
    assert!(store.will_expire(10_000_001, 2_592_000));
}

#[test]
fn authority_rejection_ends_the_attempt_and_withdraws_the_tokens() {
    let mut d = IssuanceDriver::new(8);
    d.on_event(AcmeEvent::AccountRegistered);
    d.on_event(AcmeEvent::OrderAccepted { materials: vec![material()] });
    d.on_event(AcmeEvent::ChallengesServed);
    assert!(d.tokens.lookup(&"tok-1".to_owned()).is_some());
    d.on_event(AcmeEvent::AuthorityRejected);
    assert_eq!(d.state, IssuanceState::Errored);
    assert_eq!(d.next_action(), AcmeAction::Abort);
    assert!(d.tokens.lookup(&"tok-1".to_owned()).is_none());
    assert!(d.issued.is_none());
}

#[test]
fn transport_failure_ends_the_attempt() {
    let mut d = IssuanceDriver::new(8);
    d.on_event(AcmeEvent::AccountRegistered);
    d.on_event(AcmeEvent::TransportFailed);
    assert_eq!(d.state, IssuanceState::Errored);
}

#[test]
fn an_invalid_order_is_a_hard_failure_for_the_attempt() {
    let mut d = IssuanceDriver::new(8);
    d.on_event(AcmeEvent::AccountRegistered);
    d.on_event(AcmeEvent::OrderAccepted { materials: vec![material()] });
    d.on_event(AcmeEvent::ChallengesServed);
    d.on_event(AcmeEvent::PollStatus { status: OrderStatus::Invalid });
    assert_eq!(d.state, IssuanceState::Errored);
}

#[test]
fn polling_times_out_after_the_configured_budget() {
    let mut d = IssuanceDriver::new(1);
    d.on_event(AcmeEvent::AccountRegistered);
    d.on_event(AcmeEvent::OrderAccepted { materials: vec![material()] });
    d.on_event(AcmeEvent::ChallengesServed);
    d.on_event(AcmeEvent::PollStatus { status: OrderStatus::Pending });
    assert_eq!(d.state, IssuanceState::Validating { polls_left: 1 });
    d.on_event(AcmeEvent::PollStatus { status: OrderStatus::Processing });
    assert_eq!(d.state, IssuanceState::Validating { polls_left: 0 });
    d.on_event(AcmeEvent::PollStatus { status: OrderStatus::Pending });
    assert_eq!(d.state, IssuanceState::Errored);
}

#[test]
fn a_failed_attempt_leaves_the_previous_identity_serving() {
    let mut store = CertStore::new();
    let previous = CertifiedIdentity::new(vec![vec![7]], vec![8], 5_000);
    store.set(previous);

    let mut d = IssuanceDriver::new(8);
    d.on_event(AcmeEvent::AccountRegistered);
    d.on_event(AcmeEvent::AuthorityRejected);
    assert_eq!(d.state, IssuanceState::Errored);
    assert!(!d.publish(&mut store));
    // Graceful degradation: the expiring identity is untouched.
    assert_eq!(store.get().unwrap().cert_chain, vec![vec![7]]);
    assert_eq!(store.get().unwrap().not_after, 5_000);
}

#[test]
fn an_unexpected_event_is_a_protocol_error() {
    let mut d = IssuanceDriver::new(8);
    d.on_event(AcmeEvent::PollStatus { status: OrderStatus::Valid });
    assert_eq!(d.state, IssuanceState::Errored);
}
