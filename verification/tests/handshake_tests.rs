use acme_tls::{
    AcceptError, CertStore, CertifiedIdentity, ChallengeMaterial, HandshakeGate,
    HotConfigAcceptor, ServedIdentity, TokenMap, find_alpn_cert, resolve_handshake,
};

fn production_identity() -> CertifiedIdentity {
    CertifiedIdentity::new(vec![vec![10, 11]], vec![12, 13], 99_999)
}

#[test]
fn validation_protocol_handshakes_never_get_the_production_identity() {
    let mut store = CertStore::new();
    store.set(production_identity());
    let challenge = vec![77u8, 78];
    // Even with a valid production identity in the store, the ACME
    // validation protocol is answered with the challenge certificate.
    match resolve_handshake(&store, true, Some(&challenge)) {
        ServedIdentity::Challenge(c) => assert_eq!(c, &challenge),
        _ => panic!("expected the challenge certificate"),
    }
    // And with no challenge installed, the handshake gets nothing at all.
    assert!(matches!(resolve_handshake(&store, true, None), ServedIdentity::Unavailable));
}

#[test]
fn ordinary_handshakes_get_the_stored_identity() {
    let mut store = CertStore::new();
    assert!(matches!(resolve_handshake(&store, false, None), ServedIdentity::Unavailable));
    store.set(production_identity());
    match resolve_handshake(&store, false, None) {
        ServedIdentity::Production(id) => assert_eq!(id.cert_chain, vec![vec![10, 11]]),
        _ => panic!("expected the production identity"),
    }
}

#[test]
fn alpn_challenge_certificates_are_found_by_server_name() {
    let materials = vec![
        ChallengeMaterial {
            domain: "a.example".to_owned(),
            token: "t1".to_owned(),
            key_auth: "t1.x".to_owned(),
            alpn_cert: Some(vec![1u8]),
        },
        ChallengeMaterial {
            domain: "b.example".to_owned(),
            token: "t2".to_owned(),
            key_auth: "t2.x".to_owned(),
            alpn_cert: Some(vec![2u8]),
        },
    ];
    assert_eq!(find_alpn_cert(&materials, &"b.example".to_owned()).unwrap(), &vec![2u8]);
    assert!(find_alpn_cert(&materials, &"c.example".to_owned()).is_none());
}

#[test]
fn token_map_serves_installed_materials_until_cleared() {
    let mut m = TokenMap::new();
    assert!(m.lookup(&"t1".to_owned()).is_none());
    m.install(&vec![ChallengeMaterial {
        domain: "a.example".to_owned(),
        token: "t1".to_owned(),
        key_auth: "t1.auth".to_owned(),
        alpn_cert: None,
    }]);
    assert_eq!(m.lookup(&"t1".to_owned()).unwrap(), "t1.auth");
    m.clear();
    assert!(m.lookup(&"t1".to_owned()).is_none());
}

#[test]
fn a_connection_before_any_configuration_fails_with_config_missing() {
    let a: HotConfigAcceptor<u32> = HotConfigAcceptor::new();
    assert_eq!(a.on_connection(), Err(AcceptError::ConfigMissing));
}

#[test]
fn a_connection_after_a_swap_uses_the_newest_configuration() {
    let mut a: HotConfigAcceptor<u32> = HotConfigAcceptor::new();
    a.on_config(1);
    assert_eq!(a.on_connection(), Ok(&1));
    a.on_config(2);
    assert_eq!(a.on_connection(), Ok(&2));
}

#[test]
fn the_gate_defers_io_until_the_handshake_resolves_then_stays_open() {
    let mut g = HandshakeGate::new();
    assert!(!g.io_permitted());
    assert!(!g.on_poll(false));
    assert!(g.on_poll(true));
    assert!(g.on_poll(false));
    assert!(g.io_permitted());
}
