use acme_tls::{Builder, CacheKey, ChallengeType, ConfigError};
use acme_tls::key_eq;

#[test]
fn defaults() {
    let b = Builder::new();
    assert_eq!(b.directory_name, "lets_encrypt");
    assert_eq!(b.directory_url, "https://acme-v02.api.letsencrypt.org/directory");
    assert!(b.domains.is_empty());
    assert!(b.contacts.is_empty());
    assert!(b.challenge_type.is_none());
    assert!(b.cache_path.is_none());
    assert_eq!(b.check_interval_secs, 600);
    assert_eq!(b.before_expired_secs, 2_592_000);
}

#[test]
fn get_directory_replaces_both_fields() {
    let b = Builder::new().get_directory("staging".to_owned(), "https://acme.test/dir".to_owned());
    assert_eq!(b.directory_name, "staging");
    assert_eq!(b.directory_url, "https://acme.test/dir");
}

#[test]
fn add_domain_deduplicates() {
    let b = Builder::new()
        .add_domain("example.com".to_owned())
        .add_domain("example.org".to_owned())
        .add_domain("example.com".to_owned());
    assert_eq!(b.domains, vec!["example.com".to_owned(), "example.org".to_owned()]);
}

#[test]
fn add_contact_deduplicates() {
    let b = Builder::new()
        .add_contact("mailto:ops@example.com".to_owned())
        .add_contact("mailto:ops@example.com".to_owned());
    assert_eq!(b.contacts, vec!["mailto:ops@example.com".to_owned()]);
}

#[test]
fn build_without_domains_is_a_configuration_error() {
    let r = Builder::new().http01_challege().build();
    assert!(matches!(r, Err(ConfigError::MissingDomains)));
}

#[test]
fn build_without_challenge_type_is_a_configuration_error() {
    let r = Builder::new().add_domain("example.com".to_owned()).build();
    assert!(matches!(r, Err(ConfigError::MissingChallengeType)));
}

#[test]
fn build_http01_offers_http_protocols_only() {
    let c = Builder::new()
        .add_domain("example.com".to_owned())
        .http01_challege()
        .build()
        .unwrap();
    assert_eq!(c.challenge_type, ChallengeType::Http01);
    assert_eq!(c.alpn_protocols, vec!["h2".to_owned(), "http/1.1".to_owned()]);
}

#[test]
fn build_tls_alpn01_offers_the_validation_protocol_too() {
    let c = Builder::new()
        .add_domain("example.com".to_owned())
        .tls_alpn01_challege()
        .build()
        .unwrap();
    assert_eq!(c.challenge_type, ChallengeType::TlsAlpn01);
    assert_eq!(
        c.alpn_protocols,
        vec!["h2".to_owned(), "http/1.1".to_owned(), "acme-tls/1".to_owned()]
    );
}

#[test]
fn build_carries_every_setting_over() {
    let c = Builder::new()
        .get_directory("authority".to_owned(), "https://acme.test/dir".to_owned())
        .domains(vec!["a.example".to_owned(), "b.example".to_owned()])
        .contacts(vec!["mailto:ops@example.com".to_owned()])
        .cache_path("certs".to_owned())
        .http01_challege()
        .build()
        .unwrap();
    assert_eq!(c.directory_name, "authority");
    assert_eq!(c.directory_url, "https://acme.test/dir");
    assert_eq!(c.domains, vec!["a.example".to_owned(), "b.example".to_owned()]);
    assert_eq!(c.contacts, vec!["mailto:ops@example.com".to_owned()]);
    assert_eq!(c.cache_path, Some("certs".to_owned()));
}

#[test]
fn cache_key_is_stable_across_domain_order() {
    let c1 = Builder::new()
        .domains(vec!["a.example".to_owned(), "b.example".to_owned()])
        .http01_challege()
        .build()
        .unwrap();
    let c2 = Builder::new()
        .domains(vec!["b.example".to_owned(), "a.example".to_owned()])
        .http01_challege()
        .build()
        .unwrap();
    assert!(key_eq(&c1.cache_key(), &c2.cache_key()));
    let other = CacheKey::new("lets_encrypt".to_owned(), vec!["c.example".to_owned()]);
    assert!(!key_eq(&c1.cache_key(), &other));
}
