//! The certificate store: holds the current certified identity, replaced
//! atomically as one unit. A reader receives either the full previous
//! identity or the full replacement, never a mixture, because the only way
//! to change the store is to swap in a whole `CertifiedIdentity`.

use vstd::prelude::*;
use crate::identity::CertifiedIdentity;

verus! {

pub struct CertStore {
    current: Option<CertifiedIdentity>,
}

impl CertStore {
    /// The identity the store currently holds.
    pub closed spec fn spec_get(self) -> Option<CertifiedIdentity> {
        self.current
    }

    /// The store that results from installing `id`.
    pub closed spec fn spec_set(self, id: CertifiedIdentity) -> CertStore {
        CertStore { current: Some(id) }
    }

    /// An empty store, as a fresh listener starts with.
    pub fn new() -> (r: CertStore)
        ensures
            r.spec_get() is None,
    {
        CertStore { current: None }
    }

    /// Read the current identity. Returns the whole identity, so no caller
    /// can observe a partially replaced one.
    pub fn get(&self) -> (r: Option<&CertifiedIdentity>)
        ensures
            match r {
                Some(id) => self.spec_get() == Some(*id),
                None => self.spec_get() is None,
            },
    {
        match &self.current {
            Some(id) => Some(id),
            None => None,
        }
    }

    /// Install `id` as the current identity, replacing any previous one
    /// as a whole.
    pub fn set(&mut self, id: CertifiedIdentity)
        ensures
            *final(self) == old(self).spec_set(id),
            final(self).spec_get() == Some(id),
    {
        self.current = Some(id);
    }

    /// True when no identity is stored, or the stored identity's validity
    /// window ends within `threshold` seconds of `now`.
    pub fn will_expire(&self, now: u64, threshold: u64) -> (r: bool)
        ensures
            r == match self.spec_get() {
                Some(id) => id.spec_expires_within(now, threshold),
                None => true,
            },
    {
        match &self.current {
            Some(id) => id.expires_within(now, threshold),
            None => true,
        }
    }
}

/// The store after a sequence of successful renewals, each installing its
/// identity with `set`.
pub open spec fn apply_renewals(s: CertStore, ids: Seq<CertifiedIdentity>) -> CertStore
    decreases ids.len(),
{
    if ids.len() == 0 {
        s
    } else {
        apply_renewals(s.spec_set(ids[0]), ids.drop_first())
    }
}

/// After a non-empty sequence of renewals, the store holds exactly the last
/// installed identity, whole.
pub proof fn lemma_store_after_renewals(s: CertStore, ids: Seq<CertifiedIdentity>)
    requires
        ids.len() > 0,
    ensures
        apply_renewals(s, ids).spec_get() == Some(ids.last()),
    decreases ids.len(),
{
    if ids.len() == 1 {
        assert(apply_renewals(s, ids) == apply_renewals(s.spec_set(ids[0]), ids.drop_first()));
        assert(apply_renewals(s.spec_set(ids[0]), ids.drop_first()) == s.spec_set(ids[0]));
    } else {
        lemma_store_after_renewals(s.spec_set(ids[0]), ids.drop_first());
        assert(ids.drop_first().last() == ids.last());
    }
}

/// Renewal visibility: for any sequence of successful renewals, a read that
/// happens after the i-th renewal's `set` and before the (i+1)-th observes
/// exactly the i-th identity — never a torn mixture of two identities.
pub proof fn lemma_renewal_visibility(s: CertStore, ids: Seq<CertifiedIdentity>, i: int)
    requires
        0 <= i < ids.len(),
    ensures
        apply_renewals(s, ids.take(i + 1)).spec_get() == Some(ids[i]),
{
    lemma_store_after_renewals(s, ids.take(i + 1));
    assert(ids.take(i + 1).last() == ids[i]);
}

} // verus!
