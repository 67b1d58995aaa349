//! PEM decoding of cached key and certificate material, through
//! `rustls_pemfile`, and the tolerant seeding of a certificate store from
//! whatever a cache handed back. Malformed cached bytes are treated as a
//! cache miss, never as a startup failure.

use vstd::prelude::*;
use crate::identity::CertifiedIdentity;
use crate::store::CertStore;

verus! {

/// The PKCS#8 private keys that `rustls_pemfile::pkcs8_private_keys` decodes
/// from `pem`, in order; `None` when it rejects the bytes. The result is a
/// function of the bytes alone.
pub uninterp spec fn pkcs8_keys_of(pem: Seq<u8>) -> Option<Seq<Seq<u8>>>;

/// The DER certificates that `rustls_pemfile::certs` decodes from `pem`, in
/// order; `None` when it rejects the bytes. The result is a function of the
/// bytes alone.
pub uninterp spec fn certs_of(pem: Seq<u8>) -> Option<Seq<Seq<u8>>>;

/// Relies on `rustls_pemfile::pkcs8_private_keys`: decodes every PEM
/// `PRIVATE KEY` section of the input to DER bytes, or fails on malformed
/// PEM framing or base64.
#[verifier::external_body]
fn parse_pkcs8_keys(pem: &Vec<u8>) -> (r: Option<Vec<Vec<u8>>>)
    ensures
        match r {
            Some(keys) => pkcs8_keys_of(pem@) == Some(keys.deep_view()),
            None => pkcs8_keys_of(pem@) is None,
        },
{
    rustls_pemfile::pkcs8_private_keys(&mut pem.as_slice()).ok()
}

/// Relies on `rustls_pemfile::certs`: decodes every PEM `CERTIFICATE`
/// section of the input to DER bytes, or fails on malformed PEM framing or
/// base64.
#[verifier::external_body]
fn parse_certs(pem: &Vec<u8>) -> (r: Option<Vec<Vec<u8>>>)
    ensures
        match r {
            Some(certs) => certs_of(pem@) == Some(certs.deep_view()),
            None => certs_of(pem@) is None,
        },
{
    rustls_pemfile::certs(&mut pem.as_slice()).ok()
}

/// Whether cached key and certificate bytes decode to usable identity
/// material: at least one PKCS#8 key and at least one certificate.
pub open spec fn spec_cache_usable(key_pem: Seq<u8>, cert_pem: Seq<u8>) -> bool {
    &&& pkcs8_keys_of(key_pem) is Some
    &&& pkcs8_keys_of(key_pem).unwrap().len() > 0
    &&& pkcs8_keys_of(key_pem).unwrap()[0].len() > 0
    &&& certs_of(cert_pem) is Some
    &&& certs_of(cert_pem).unwrap().len() > 0
}

/// An identity decoded from usable cached bytes: the full decoded chain and
/// the first decoded key, with an unknown validity end.
pub open spec fn spec_is_cached_identity(id: CertifiedIdentity, key_pem: Seq<u8>, cert_pem: Seq<u8>) -> bool {
    &&& id.cert_chain.deep_view() == certs_of(cert_pem).unwrap()
    &&& id.private_key@ == pkcs8_keys_of(key_pem).unwrap()[0]
    &&& id.not_after == 0
}

/// Decode cached PEM bytes into an identity. Returns `Some` exactly when the
/// bytes are usable per `spec_cache_usable`; anything malformed or empty is
/// reported as `None`, to be treated as a cache miss.
pub fn load_cached_identity(key_pem: &Vec<u8>, cert_pem: &Vec<u8>) -> (r: Option<CertifiedIdentity>)
    ensures
        match r {
            Some(id) => {
                &&& spec_cache_usable(key_pem@, cert_pem@)
                &&& spec_is_cached_identity(id, key_pem@, cert_pem@)
                &&& id.wf()
            },
            None => !spec_cache_usable(key_pem@, cert_pem@),
        },
{
    let mut keys = match parse_pkcs8_keys(key_pem) {
        Some(keys) => keys,
        None => {
            return None;
        },
    };
    let certs = match parse_certs(cert_pem) {
        Some(certs) => certs,
        None => {
            return None;
        },
    };
    if keys.len() == 0 || certs.len() == 0 {
        return None;
    }
    let key = keys.remove(0);
    if key.len() == 0 {
        return None;
    }
    assert(key@ == pkcs8_keys_of(key_pem@).unwrap()[0]);
    Some(CertifiedIdentity { cert_chain: certs, private_key: key, not_after: 0 })
}

/// Seed an empty store from optional cached bytes. The store is set exactly
/// when both kinds of bytes are present and usable; otherwise it is left
/// untouched. Returns whether the store was seeded.
pub fn seed_store_from_cache(
    store: &mut CertStore,
    key_pem: &Option<Vec<u8>>,
    cert_pem: &Option<Vec<u8>>,
) -> (seeded: bool)
    ensures
        seeded ==> {
            &&& key_pem is Some
            &&& cert_pem is Some
            &&& spec_cache_usable(key_pem.unwrap()@, cert_pem.unwrap()@)
            &&& final(store).spec_get() is Some
            &&& spec_is_cached_identity(
                final(store).spec_get().unwrap(),
                key_pem.unwrap()@,
                cert_pem.unwrap()@,
            )
        },
        !seeded ==> {
            &&& *final(store) == *old(store)
            &&& (key_pem is Some && cert_pem is Some)
                ==> !spec_cache_usable(key_pem.unwrap()@, cert_pem.unwrap()@)
        },
{
    match (key_pem, cert_pem) {
        (Some(key_bytes), Some(cert_bytes)) => {
            match load_cached_identity(key_bytes, cert_bytes) {
                Some(id) => {
                    store.set(id);
                    true
                },
                None => false,
            }
        },
        _ => false,
    }
}

} // verus!
