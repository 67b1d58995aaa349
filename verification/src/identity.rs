//! The certified identity: a certificate chain and its private key, treated
//! as one immutable unit, replaced as a whole and never mutated in place.

use vstd::prelude::*;

verus! {

/// A certificate chain (leaf first, DER bytes per element) together with the
/// matching private key and the end of the validity window, as seconds since
/// the Unix epoch. `not_after == 0` means the validity end is unknown (for
/// example, for material seeded from the cache); such an identity is treated
/// as already expiring so that the scheduler refreshes it promptly.
pub struct CertifiedIdentity {
    pub cert_chain: Vec<Vec<u8>>,
    pub private_key: Vec<u8>,
    pub not_after: u64,
}

impl CertifiedIdentity {
    /// A well-formed identity has at least one certificate and a non-empty key.
    pub open spec fn wf(self) -> bool {
        &&& self.cert_chain@.len() > 0
        &&& self.private_key@.len() > 0
    }

    pub fn new(cert_chain: Vec<Vec<u8>>, private_key: Vec<u8>, not_after: u64) -> (r: Self)
        requires
            cert_chain@.len() > 0,
            private_key@.len() > 0,
        ensures
            r.cert_chain == cert_chain,
            r.private_key == private_key,
            r.not_after == not_after,
            r.wf(),
    {
        CertifiedIdentity { cert_chain, private_key, not_after }
    }

    /// The validity window ends within `threshold` seconds of `now`.
    /// An unknown validity end (`not_after == 0`) always counts as expiring.
    pub open spec fn spec_expires_within(self, now: u64, threshold: u64) -> bool {
        self.not_after <= now + threshold
    }

    pub fn expires_within(&self, now: u64, threshold: u64) -> (r: bool)
        ensures
            r == self.spec_expires_within(now, threshold),
    {
        if self.not_after <= now {
            true
        } else {
            self.not_after - now <= threshold
        }
    }
}

} // verus!
