//! Automatic TLS certificate lifecycle management for a hot-reloadable
//! listener: an ACME issuance state machine, an atomically swappable
//! certificate store, a byte-level certificate cache, challenge responders
//! for HTTP-01 and TLS-ALPN-01, a renewal scheduler, and the acceptor-side
//! decision logic that ties them together.

mod acceptor;
mod acme;
mod builder;
mod cache;
mod identity;
mod native_tls;
mod pem;
mod resolver;
mod responder;
mod scheduler;
mod store;
mod stream;

pub use acceptor::AcceptError;
pub use acceptor::HotConfigAcceptor;
pub use acceptor::lemma_hot_reload;
pub use acme::AcmeAction;
pub use acme::AcmeEvent;
pub use acme::ChallengeType;
pub use acme::IssuanceDriver;
pub use acme::IssuanceState;
pub use acme::OrderStatus;
pub use acme::lemma_resolved_serves_nothing;
pub use acme::lemma_validating_serves_key_auth;
pub use acme::spec_is_terminal;
pub use acme::spec_next_action;
pub use acme::spec_step;
pub use builder::AcmeConfig;
pub use builder::Builder;
pub use builder::ConfigError;
pub use cache::CacheKey;
pub use cache::CertCache;
pub use cache::domain_set;
pub use cache::key_eq;
pub use cache::lemma_cache_round_trip;
pub use identity::CertifiedIdentity;
pub use native_tls::NativeTlsConfig;
pub use pem::certs_of;
pub use pem::load_cached_identity;
pub use pem::pkcs8_keys_of;
pub use pem::seed_store_from_cache;
pub use pem::spec_cache_usable;
pub use pem::spec_is_cached_identity;
pub use resolver::ServedIdentity;
pub use resolver::resolve_handshake;
pub use responder::ChallengeMaterial;
pub use responder::TokenMap;
pub use responder::find_alpn_cert;
pub use responder::lemma_lookup_first;
pub use responder::materials_entries;
pub use responder::spec_alpn_cert_for;
pub use responder::spec_lookup_entries;
pub use scheduler::TickDecision;
pub use scheduler::lemma_scheduler_self_cancels;
pub use scheduler::scheduler_tick;
pub use scheduler::spec_tick;
pub use store::CertStore;
pub use store::apply_renewals;
pub use store::lemma_renewal_visibility;
pub use store::lemma_store_after_renewals;
pub use stream::HandshakeGate;
pub use stream::lemma_gate_monotonic;
pub use stream::spec_poll_all;
