//! Building the certificate lifecycle manager: the authority directory, the
//! domain set, account contacts, the challenge strategy and the cache
//! location are collected here, validated once, and frozen into an
//! `AcmeConfig`. Building with no domain, or with no challenge strategy
//! chosen, fails with a configuration error before any listener exists.

use vstd::prelude::*;
use crate::acme::ChallengeType;
use crate::cache::CacheKey;
use crate::cache::contains_domain;
use crate::cache::domain_set;

verus! {

/// A build-time misconfiguration; fatal, reported before any listener is
/// produced.
#[derive(Clone, Copy, PartialEq, Eq, Structural, Debug)]
pub enum ConfigError {
    /// The domain set is empty.
    MissingDomains,
    /// Neither HTTP-01 nor TLS-ALPN-01 was selected.
    MissingChallengeType,
}

/// The validated, frozen configuration a listener is built from.
pub struct AcmeConfig {
    pub directory_name: String,
    pub directory_url: String,
    pub domains: Vec<String>,
    pub contacts: Vec<String>,
    pub challenge_type: ChallengeType,
    pub cache_path: Option<String>,
    pub check_interval_secs: u64,
    pub before_expired_secs: u64,
    /// Application protocols the acceptor offers: the HTTP protocols, plus
    /// the ACME validation protocol when TLS-ALPN-01 is selected.
    pub alpn_protocols: Vec<String>,
}

/// Clone a domain list, element for element.
fn clone_domains(v: &Vec<String>) -> (out: Vec<String>)
    ensures
        out@ == v@,
{
    let mut out: Vec<String> = Vec::new();
    let mut i: usize = 0;
    while i < v.len()
        invariant
            0 <= i <= v@.len(),
            out@ == v@.take(i as int),
        decreases v@.len() - i,
    {
        out.push(v[i].clone());
        assert(v@.take(i as int + 1) =~= v@.take(i as int).push(v@[i as int]));
        i = i + 1;
    }
    assert(v@.take(v@.len() as int) =~= v@);
    out
}

impl AcmeConfig {
    /// The deterministic cache address for this configuration: the
    /// authority's name and the configured domain set. Stable across
    /// restarts, and independent of domain order.
    pub fn cache_key(&self) -> (r: CacheKey)
        ensures
            r.spec_authority() == self.directory_name@,
            r.spec_domains() == domain_set(self.domains@),
    {
        CacheKey::new(self.directory_name.clone(), clone_domains(&self.domains))
    }
}

/// Collects the configuration for the certificate lifecycle manager.
pub struct Builder {
    pub directory_name: String,
    pub directory_url: String,
    pub domains: Vec<String>,
    pub contacts: Vec<String>,
    pub challenge_type: Option<ChallengeType>,
    pub cache_path: Option<String>,
    pub check_interval_secs: u64,
    pub before_expired_secs: u64,
}

impl Builder {
    /// A builder with the defaults: the well-known public authority, no
    /// domains or contacts yet, no challenge strategy chosen, no cache, a
    /// ten-minute freshness check and a thirty-day renewal threshold.
    pub fn new() -> (r: Builder)
        ensures
            r.directory_name@ == "lets_encrypt"@,
            r.directory_url@ == "https://acme-v02.api.letsencrypt.org/directory"@,
            r.domains@.len() == 0,
            r.contacts@.len() == 0,
            r.challenge_type is None,
            r.cache_path is None,
            r.check_interval_secs == 600,
            r.before_expired_secs == 2592000,
    {
        Builder {
            directory_name: "lets_encrypt".to_owned(),
            directory_url: "https://acme-v02.api.letsencrypt.org/directory".to_owned(),
            domains: Vec::new(),
            contacts: Vec::new(),
            challenge_type: None,
            cache_path: None,
            check_interval_secs: 600,
            before_expired_secs: 2592000,
        }
    }

    /// Use the authority directory `url`, cached and reported under `name`.
    pub fn get_directory(self, name: String, url: String) -> (r: Builder)
        ensures
            r == (Builder { directory_name: name, directory_url: url, ..self }),
    {
        Builder { directory_name: name, directory_url: url, ..self }
    }

    /// Replace the requested domain set.
    pub fn domains(self, domains: Vec<String>) -> (r: Builder)
        ensures
            r == (Builder { domains, ..self }),
    {
        Builder { domains, ..self }
    }

    /// Add one domain; a domain already present (as a set of names) is not
    /// added again.
    pub fn add_domain(self, domain: String) -> (r: Builder)
        ensures
            domain_set(self.domains@).contains(domain@) ==> r == self,
            !domain_set(self.domains@).contains(domain@) ==> r == (Builder {
                domains: r.domains,
                ..self
            }) && r.domains@ == self.domains@.push(domain),
    {
        if contains_domain(&self.domains, &domain) {
            self
        } else {
            let mut r = self;
            r.domains.push(domain);
            r
        }
    }

    /// Replace the account contact addresses.
    pub fn contacts(self, contacts: Vec<String>) -> (r: Builder)
        ensures
            r == (Builder { contacts, ..self }),
    {
        Builder { contacts, ..self }
    }

    /// Add one account contact address; one already present is not added
    /// again.
    pub fn add_contact(self, contact: String) -> (r: Builder)
        ensures
            domain_set(self.contacts@).contains(contact@) ==> r == self,
            !domain_set(self.contacts@).contains(contact@) ==> r == (Builder {
                contacts: r.contacts,
                ..self
            }) && r.contacts@ == self.contacts@.push(contact),
    {
        if contains_domain(&self.contacts, &contact) {
            self
        } else {
            let mut r = self;
            r.contacts.push(contact);
            r
        }
    }

    /// Prove domain control by serving the key authorization at the
    /// well-known path: the HTTP-01 strategy. The token map the route reads
    /// is the responder installed by the issuance driver.
    pub fn http01_challege(self) -> (r: Builder)
        ensures
            r == (Builder { challenge_type: Some(ChallengeType::Http01), ..self }),
    {
        Builder { challenge_type: Some(ChallengeType::Http01), ..self }
    }

    /// Prove domain control inside the TLS handshake itself: the
    /// TLS-ALPN-01 strategy.
    pub fn tls_alpn01_challege(self) -> (r: Builder)
        ensures
            r == (Builder { challenge_type: Some(ChallengeType::TlsAlpn01), ..self }),
    {
        Builder { challenge_type: Some(ChallengeType::TlsAlpn01), ..self }
    }

    /// Cache issued certificates under `path`, so a restart can serve
    /// immediately. Without a cache the obtained certificate lives only in
    /// memory and is obtained again on the next start.
    pub fn cache_path(self, path: String) -> (r: Builder)
        ensures
            r == (Builder { cache_path: Some(path), ..self }),
    {
        Builder { cache_path: Some(path), ..self }
    }

    /// Validate and freeze the configuration. Succeeds exactly when at
    /// least one domain is requested and a challenge strategy was chosen;
    /// the frozen configuration carries every setting over and fixes the
    /// offered application protocols.
    pub fn build(self) -> (r: Result<AcmeConfig, ConfigError>)
        ensures
            r is Ok <==> (self.domains@.len() > 0 && self.challenge_type is Some),
            self.domains@.len() == 0 ==> r == Err::<AcmeConfig, ConfigError>(
                ConfigError::MissingDomains,
            ),
            self.domains@.len() > 0 && self.challenge_type is None ==> r == Err::<
                AcmeConfig,
                ConfigError,
            >(ConfigError::MissingChallengeType),
            r matches Ok(c) ==> {
                &&& c.directory_name == self.directory_name
                &&& c.directory_url == self.directory_url
                &&& c.domains == self.domains
                &&& c.contacts == self.contacts
                &&& Some(c.challenge_type) == self.challenge_type
                &&& c.cache_path == self.cache_path
                &&& c.check_interval_secs == self.check_interval_secs
                &&& c.before_expired_secs == self.before_expired_secs
                &&& c.alpn_protocols@.len() == (
                    if c.challenge_type is TlsAlpn01 { 3int } else { 2int }
                )
                &&& c.alpn_protocols@[0]@ == "h2"@
                &&& c.alpn_protocols@[1]@ == "http/1.1"@
                &&& c.challenge_type is TlsAlpn01 ==> c.alpn_protocols@[2]@ == "acme-tls/1"@
            },
    {
        if self.domains.len() == 0 {
            return Err(ConfigError::MissingDomains);
        }
        let challenge_type = match self.challenge_type {
            Some(t) => t,
            None => {
                return Err(ConfigError::MissingChallengeType);
            },
        };
        let mut alpn_protocols: Vec<String> = Vec::new();
        alpn_protocols.push("h2".to_owned());
        alpn_protocols.push("http/1.1".to_owned());
        if challenge_type == ChallengeType::TlsAlpn01 {
            alpn_protocols.push("acme-tls/1".to_owned());
        }
        Ok(AcmeConfig {
            directory_name: self.directory_name,
            directory_url: self.directory_url,
            domains: self.domains,
            contacts: self.contacts,
            challenge_type,
            cache_path: self.cache_path,
            check_interval_secs: self.check_interval_secs,
            before_expired_secs: self.before_expired_secs,
            alpn_protocols,
        })
    }
}

} // verus!
