use acme_tls::{CacheKey, CertCache, CertStore, CertifiedIdentity};

fn identity(tag: u8, not_after: u64) -> CertifiedIdentity {
    CertifiedIdentity::new(vec![vec![tag, tag, tag]], vec![9, 9, tag], not_after)
}

#[test]
fn empty_store_has_no_identity_and_counts_as_expiring() {
    let s = CertStore::new();
    assert!(s.get().is_none());
    assert!(s.will_expire(1_000, 30));
}

#[test]
fn set_then_get_returns_the_whole_identity() {
    let mut s = CertStore::new();
    s.set(identity(1, 5_000));
    let got = s.get().unwrap();
    assert_eq!(got.cert_chain, vec![vec![1, 1, 1]]);
    assert_eq!(got.private_key, vec![9, 9, 1]);
    assert_eq!(got.not_after, 5_000);
}

#[test]
fn a_read_between_renewals_observes_the_latest_renewal() {
    let mut s = CertStore::new();
    s.set(identity(1, 5_000));
    s.set(identity(2, 9_000));
    let got = s.get().unwrap();
    assert_eq!(got.cert_chain, vec![vec![2, 2, 2]]);
    assert_eq!(got.private_key, vec![9, 9, 2]);
}

#[test]
fn will_expire_compares_the_validity_end_against_now_plus_threshold() {
    let mut s = CertStore::new();
    s.set(identity(1, 100));
    assert!(!s.will_expire(50, 30));
    assert!(s.will_expire(50, 50));
    assert!(s.will_expire(100, 0));
    assert!(s.will_expire(150, 0));
}

#[test]
fn unknown_validity_end_counts_as_expiring() {
    let mut s = CertStore::new();
    s.set(identity(1, 0));
    assert!(s.will_expire(0, 0));
}

#[test]
fn cache_round_trip_is_byte_identical() {
    let mut c = CertCache::new();
    let k = || CacheKey::new("authority".to_owned(), vec!["example.com".to_owned()]);
    let key_bytes = vec![1u8, 2, 3, 4, 5];
    let cert_bytes = vec![9u8, 8, 7];
    c.write_key(k(), key_bytes.clone());
    c.write_cert(k(), cert_bytes.clone());
    assert_eq!(c.read_key(&k()).unwrap(), &key_bytes);
    assert_eq!(c.read_cert(&k()).unwrap(), &cert_bytes);
}

#[test]
fn cache_reads_under_a_reordered_domain_set_hit_the_same_record() {
    let mut c = CertCache::new();
    let wrote = CacheKey::new(
        "authority".to_owned(),
        vec!["a.example".to_owned(), "b.example".to_owned()],
    );
    let read = CacheKey::new(
        "authority".to_owned(),
        vec!["b.example".to_owned(), "a.example".to_owned()],
    );
    c.write_cert(wrote, vec![42u8]);
    assert_eq!(c.read_cert(&read).unwrap(), &vec![42u8]);
}

#[test]
fn cache_returns_the_latest_write() {
    let mut c = CertCache::new();
    let k = || CacheKey::new("authority".to_owned(), vec!["example.com".to_owned()]);
    c.write_key(k(), vec![1u8]);
    c.write_key(k(), vec![2u8]);
    assert_eq!(c.read_key(&k()).unwrap(), &vec![2u8]);
}

#[test]
fn cache_keeps_distinct_addresses_apart() {
    let mut c = CertCache::new();
    let k1 = CacheKey::new("authority".to_owned(), vec!["example.com".to_owned()]);
    let k2 = CacheKey::new("authority".to_owned(), vec!["example.org".to_owned()]);
    let k3 = CacheKey::new("other".to_owned(), vec!["example.com".to_owned()]);
    c.write_key(k1, vec![1u8]);
    assert!(c.read_key(&k2).is_none());
    assert!(c.read_key(&k3).is_none());
    assert!(c.read_cert(&CacheKey::new("authority".to_owned(), vec!["example.com".to_owned()])).is_none());
}
