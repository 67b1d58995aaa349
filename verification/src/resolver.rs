//! Handshake-time identity resolution: which certificate a connection is
//! served. A handshake that negotiates the ACME validation protocol is
//! answered with challenge material only — never with the production
//! identity — while every ordinary handshake reads the store's current
//! identity.

use vstd::prelude::*;
use crate::identity::CertifiedIdentity;
use crate::store::CertStore;

verus! {

/// What a handshake is served.
pub enum ServedIdentity<'a> {
    /// The production identity currently in the store.
    Production(&'a CertifiedIdentity),
    /// The DER bytes of a TLS-ALPN-01 challenge certificate, for this one
    /// handshake only.
    Challenge(&'a Vec<u8>),
    /// Nothing can be served: the handshake must fail.
    Unavailable,
}

/// Resolve one handshake. `alpn_is_acme` says whether the negotiated
/// application-layer protocol is the ACME validation protocol;
/// `challenge_cert` is the challenge certificate installed for the
/// connection's server name, if any.
pub fn resolve_handshake<'a>(
    store: &'a CertStore,
    alpn_is_acme: bool,
    challenge_cert: Option<&'a Vec<u8>>,
) -> (r: ServedIdentity<'a>)
    ensures
        alpn_is_acme ==> !(r is Production),
        alpn_is_acme ==> match challenge_cert {
            Some(c) => r matches ServedIdentity::Challenge(served) && served@ == c@,
            None => r is Unavailable,
        },
        !alpn_is_acme ==> match store.spec_get() {
            Some(id) => r matches ServedIdentity::Production(p) && *p == id,
            None => r is Unavailable,
        },
{
    if alpn_is_acme {
        match challenge_cert {
            Some(c) => ServedIdentity::Challenge(c),
            None => ServedIdentity::Unavailable,
        }
    } else {
        match store.get() {
            Some(id) => ServedIdentity::Production(id),
            None => ServedIdentity::Unavailable,
        }
    }
}

} // verus!
