//! The certificate cache: byte storage for private keys and certificate
//! chains, addressed by a canonical key made of the authority name and the
//! set of domains. Domain order does not matter: two keys naming the same
//! authority and the same domains address the same record. A read returns
//! the bytes of the latest write under the same key.

use vstd::prelude::*;

verus! {

/// The set of domain names (as character sequences) that a list of domain
/// strings denotes; duplicates and order are canonicalized away.
pub open spec fn domain_set(ds: Seq<String>) -> Set<Seq<char>> {
    Set::new(|x: Seq<char>| exists|i: int| 0 <= i < ds.len() && ds[i]@ == x)
}

/// Addresses one cache record: the issuing authority's name and the domain
/// set the certificate covers.
pub struct CacheKey {
    pub authority: String,
    pub domains: Vec<String>,
}

impl CacheKey {
    pub open spec fn spec_authority(self) -> Seq<char> {
        self.authority@
    }

    pub open spec fn spec_domains(self) -> Set<Seq<char>> {
        domain_set(self.domains@)
    }

    /// Two keys address the same record: same authority, same domain set.
    pub open spec fn same_key(self, other: CacheKey) -> bool {
        &&& self.spec_authority() == other.spec_authority()
        &&& self.spec_domains() == other.spec_domains()
    }

    pub fn new(authority: String, domains: Vec<String>) -> (r: CacheKey)
        ensures
            r.authority == authority,
            r.domains == domains,
    {
        CacheKey { authority, domains }
    }
}

/// True exactly when some element of `ds` reads as `d`.
pub(crate) fn contains_domain(ds: &Vec<String>, d: &String) -> (r: bool)
    ensures
        r == domain_set(ds@).contains(d@),
{
    let mut i: usize = 0;
    while i < ds.len()
        invariant
            0 <= i <= ds@.len(),
            forall|j: int| 0 <= j < i ==> ds@[j]@ != d@,
        decreases ds@.len() - i,
    {
        if ds[i].eq(d) {
            assert(ds@[i as int]@ == d@);
            assert(domain_set(ds@).contains(d@));
            return true;
        }
        i = i + 1;
    }
    assert(!domain_set(ds@).contains(d@));
    false
}

/// True exactly when every domain of `a` is also a domain of `b`.
fn domains_subset(a: &Vec<String>, b: &Vec<String>) -> (r: bool)
    ensures
        r == forall|j: int| 0 <= j < a@.len() ==> domain_set(b@).contains(#[trigger] a@[j]@),
{
    let mut i: usize = 0;
    while i < a.len()
        invariant
            0 <= i <= a@.len(),
            forall|j: int| 0 <= j < i ==> domain_set(b@).contains(#[trigger] a@[j]@),
        decreases a@.len() - i,
    {
        if !contains_domain(b, &a[i]) {
            return false;
        }
        i = i + 1;
    }
    true
}

/// Decide whether two keys address the same record.
pub fn key_eq(a: &CacheKey, b: &CacheKey) -> (r: bool)
    ensures
        r == a.same_key(*b),
{
    if !(a.authority == b.authority) {
        return false;
    }
    let ab = domains_subset(&a.domains, &b.domains);
    let ba = domains_subset(&b.domains, &a.domains);
    if ab && ba {
        assert(domain_set(a.domains@) =~= domain_set(b.domains@)) by {
            assert forall|x: Seq<char>|
                domain_set(a.domains@).contains(x) implies domain_set(b.domains@).contains(x) by {
                let i = choose|i: int| 0 <= i < a.domains@.len() && a.domains@[i]@ == x;
                assert(domain_set(b.domains@).contains(a.domains@[i]@));
            }
            assert forall|x: Seq<char>|
                domain_set(b.domains@).contains(x) implies domain_set(a.domains@).contains(x) by {
                let i = choose|i: int| 0 <= i < b.domains@.len() && b.domains@[i]@ == x;
                assert(domain_set(a.domains@).contains(b.domains@[i]@));
            }
        }
        true
    } else {
        if ab != ba {
            assert(domain_set(a.domains@) != domain_set(b.domains@)) by {
                if ab {
                    let i = choose|i: int|
                        0 <= i < b.domains@.len() && !domain_set(a.domains@).contains(
                            b.domains@[i]@,
                        );
                    assert(domain_set(b.domains@).contains(b.domains@[i]@));
                } else {
                    let i = choose|i: int|
                        0 <= i < a.domains@.len() && !domain_set(b.domains@).contains(
                            a.domains@[i]@,
                        );
                    assert(domain_set(a.domains@).contains(a.domains@[i]@));
                }
            }
        } else {
            assert(domain_set(a.domains@) != domain_set(b.domains@)) by {
                let i = choose|i: int|
                    0 <= i < a.domains@.len() && !domain_set(b.domains@).contains(a.domains@[i]@);
                assert(domain_set(a.domains@).contains(a.domains@[i]@));
            }
        }
        false
    }
}

/// One stored record: the bytes written under a key.
struct KeyedBytes {
    key: CacheKey,
    bytes: Vec<u8>,
}

/// The latest record for the address `(a, ds)`, searching newest first.
spec fn spec_find(s: Seq<KeyedBytes>, a: Seq<char>, ds: Set<Seq<char>>) -> Option<Seq<u8>>
    decreases s.len(),
{
    if s.len() == 0 {
        None
    } else if s.last().key.spec_authority() == a && s.last().key.spec_domains() == ds {
        Some(s.last().bytes@)
    } else {
        spec_find(s.drop_last(), a, ds)
    }
}

proof fn lemma_find_push(s: Seq<KeyedBytes>, e: KeyedBytes, a: Seq<char>, ds: Set<Seq<char>>)
    ensures
        spec_find(s.push(e), a, ds) == if e.key.spec_authority() == a && e.key.spec_domains() == ds {
            Some(e.bytes@)
        } else {
            spec_find(s, a, ds)
        },
{
    assert(s.push(e).last() == e);
    assert(s.push(e).drop_last() =~= s);
}

/// In-memory certificate cache: private-key bytes and certificate bytes,
/// each addressed by a canonical `(authority, domain set)` key. A write
/// appends; a read returns the latest write under the same address.
pub struct CertCache {
    key_records: Vec<KeyedBytes>,
    cert_records: Vec<KeyedBytes>,
}

/// Search `records`, newest first, for the latest bytes under `k`'s address.
fn find_bytes<'a>(records: &'a Vec<KeyedBytes>, k: &CacheKey) -> (r: Option<&'a Vec<u8>>)
    ensures
        match r {
            Some(v) => spec_find(records@, k.spec_authority(), k.spec_domains()) == Some(v@),
            None => spec_find(records@, k.spec_authority(), k.spec_domains()) is None,
        },
{
    let ghost a = k.spec_authority();
    let ghost ds = k.spec_domains();
    let mut i: usize = records.len();
    assert(records@.take(records@.len() as int) =~= records@);
    while i > 0
        invariant
            0 <= i <= records@.len(),
            a == k.spec_authority(),
            ds == k.spec_domains(),
            spec_find(records@, a, ds) == spec_find(records@.take(i as int), a, ds),
        decreases i,
    {
        i = i - 1;
        let ghost pre = records@.take(i as int + 1);
        assert(pre.len() == i + 1);
        assert(pre.last() == records@[i as int]);
        assert(pre.drop_last() =~= records@.take(i as int));
        if key_eq(&records[i].key, k) {
            assert(records@[i as int].key.same_key(*k));
            assert(pre.last().key.spec_authority() == a);
            assert(pre.last().key.spec_domains() == ds);
            assert(spec_find(pre, a, ds) == Some(pre.last().bytes@));
            return Some(&records[i].bytes);
        }
        assert(spec_find(pre, a, ds) == spec_find(records@.take(i as int), a, ds));
    }
    None
}

impl CertCache {
    /// The latest private-key bytes written under the address `(a, ds)`.
    pub closed spec fn spec_read_key(self, a: Seq<char>, ds: Set<Seq<char>>) -> Option<Seq<u8>> {
        spec_find(self.key_records@, a, ds)
    }

    /// The latest certificate bytes written under the address `(a, ds)`.
    pub closed spec fn spec_read_cert(self, a: Seq<char>, ds: Set<Seq<char>>) -> Option<Seq<u8>> {
        spec_find(self.cert_records@, a, ds)
    }

    /// An empty cache: every read misses.
    pub fn new() -> (r: CertCache)
        ensures
            forall|a: Seq<char>, ds: Set<Seq<char>>| r.spec_read_key(a, ds) is None,
            forall|a: Seq<char>, ds: Set<Seq<char>>| r.spec_read_cert(a, ds) is None,
    {
        CertCache { key_records: Vec::new(), cert_records: Vec::new() }
    }

    /// Read the private-key bytes stored under `k`, if any.
    pub fn read_key(&self, k: &CacheKey) -> (r: Option<&Vec<u8>>)
        ensures
            match r {
                Some(v) => self.spec_read_key(k.spec_authority(), k.spec_domains()) == Some(v@),
                None => self.spec_read_key(k.spec_authority(), k.spec_domains()) is None,
            },
    {
        find_bytes(&self.key_records, k)
    }

    /// Read the certificate bytes stored under `k`, if any.
    pub fn read_cert(&self, k: &CacheKey) -> (r: Option<&Vec<u8>>)
        ensures
            match r {
                Some(v) => self.spec_read_cert(k.spec_authority(), k.spec_domains()) == Some(v@),
                None => self.spec_read_cert(k.spec_authority(), k.spec_domains()) is None,
            },
    {
        find_bytes(&self.cert_records, k)
    }

    /// Store private-key bytes under `k`. A later read under any key with
    /// the same authority and domain set returns exactly these bytes;
    /// every other address, and all certificate records, are unchanged.
    pub fn write_key(&mut self, k: CacheKey, bytes: Vec<u8>)
        ensures
            final(self).spec_read_key(k.spec_authority(), k.spec_domains()) == Some(bytes@),
            forall|a: Seq<char>, ds: Set<Seq<char>>|
                !(a == k.spec_authority() && ds == k.spec_domains())
                    ==> final(self).spec_read_key(a, ds) == old(self).spec_read_key(a, ds),
            forall|a: Seq<char>, ds: Set<Seq<char>>|
                final(self).spec_read_cert(a, ds) == old(self).spec_read_cert(a, ds),
    {
        let ghost entry_view = KeyedBytes { key: k, bytes };
        let ghost olds = self.key_records@;
        self.key_records.push(KeyedBytes { key: k, bytes });
        proof {
            assert forall|a: Seq<char>, ds: Set<Seq<char>>|
                #[trigger] spec_find(olds.push(entry_view), a, ds) == if entry_view.key.spec_authority() == a
                    && entry_view.key.spec_domains() == ds {
                    Some(entry_view.bytes@)
                } else {
                    spec_find(olds, a, ds)
                } by {
                lemma_find_push(olds, entry_view, a, ds);
            }
        }
    }

    /// Store certificate bytes under `k`. A later read under any key with
    /// the same authority and domain set returns exactly these bytes;
    /// every other address, and all private-key records, are unchanged.
    pub fn write_cert(&mut self, k: CacheKey, bytes: Vec<u8>)
        ensures
            final(self).spec_read_cert(k.spec_authority(), k.spec_domains()) == Some(bytes@),
            forall|a: Seq<char>, ds: Set<Seq<char>>|
                !(a == k.spec_authority() && ds == k.spec_domains())
                    ==> final(self).spec_read_cert(a, ds) == old(self).spec_read_cert(a, ds),
            forall|a: Seq<char>, ds: Set<Seq<char>>|
                final(self).spec_read_key(a, ds) == old(self).spec_read_key(a, ds),
    {
        let ghost entry_view = KeyedBytes { key: k, bytes };
        let ghost olds = self.cert_records@;
        self.cert_records.push(KeyedBytes { key: k, bytes });
        proof {
            assert forall|a: Seq<char>, ds: Set<Seq<char>>|
                #[trigger] spec_find(olds.push(entry_view), a, ds) == if entry_view.key.spec_authority() == a
                    && entry_view.key.spec_domains() == ds {
                    Some(entry_view.bytes@)
                } else {
                    spec_find(olds, a, ds)
                } by {
                lemma_find_push(olds, entry_view, a, ds);
            }
        }
    }
}

/// Cache round trip: after writing key bytes and certificate bytes under a
/// key, reading under any key with the same authority and domain set yields
/// exactly the written bytes. This restates, over the cache's reading
/// functions, what one write of each kind leaves behind.
pub proof fn lemma_cache_round_trip(
    c: CertCache,
    c2: CertCache,
    k: CacheKey,
    k2: CacheKey,
    key_bytes: Seq<u8>,
    cert_bytes: Seq<u8>,
)
    requires
        k.same_key(k2),
        c2.spec_read_key(k.spec_authority(), k.spec_domains()) == Some(key_bytes),
        c2.spec_read_cert(k.spec_authority(), k.spec_domains()) == Some(cert_bytes),
    ensures
        c2.spec_read_key(k2.spec_authority(), k2.spec_domains()) == Some(key_bytes),
        c2.spec_read_cert(k2.spec_authority(), k2.spec_domains()) == Some(cert_bytes),
{
}

} // verus!
