//! Configuration for a TLS backend that takes its identity from a PKCS#12
//! archive: the archive bytes (or the path to read them from) and the
//! password that unlocks them. Turning the archive into the backend's
//! identity object, and reading the archive from disk, are the backend's
//! own work and happen outside this module.

use vstd::prelude::*;

verus! {

/// Builder for the PKCS#12-based TLS backend configuration.
#[derive(Debug)]
pub struct NativeTlsConfig {
    pub pkcs12_path: Option<String>,
    pub pkcs12: Vec<u8>,
    pub password: String,
}

impl NativeTlsConfig {
    /// An empty configuration: no archive, no path, an empty password.
    pub fn new() -> (r: NativeTlsConfig)
        ensures
            r.pkcs12_path is None,
            r.pkcs12@.len() == 0,
            r.password@.len() == 0,
    {
        NativeTlsConfig { pkcs12_path: None, pkcs12: Vec::new(), password: String::new() }
    }

    /// Read the PKCS#12 archive from `path` (used only when no archive
    /// bytes were set directly).
    pub fn with_pkcs12_path(self, path: String) -> (r: NativeTlsConfig)
        ensures
            r == (NativeTlsConfig { pkcs12_path: Some(path), ..self }),
    {
        NativeTlsConfig { pkcs12_path: Some(path), ..self }
    }

    /// Use these PKCS#12 archive bytes.
    pub fn with_pkcs12(self, pkcs12: Vec<u8>) -> (r: NativeTlsConfig)
        ensures
            r == (NativeTlsConfig { pkcs12, ..self }),
    {
        NativeTlsConfig { pkcs12, ..self }
    }

    /// Use this password to unlock the archive.
    pub fn with_password(self, password: String) -> (r: NativeTlsConfig)
        ensures
            r == (NativeTlsConfig { password, ..self }),
    {
        NativeTlsConfig { password, ..self }
    }
}

impl Default for NativeTlsConfig {
    /// The same configuration `new` gives.
    fn default() -> (r: NativeTlsConfig)
        ensures
            r.pkcs12_path is None,
            r.pkcs12@.len() == 0,
            r.password@.len() == 0,
    {
        NativeTlsConfig::new()
    }
}

} // verus!
