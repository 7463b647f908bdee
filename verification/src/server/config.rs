//! Settings of the API server.

use vstd::prelude::*;
use vstd::string::*;

verus! {

/// An API key that clients present as a bearer token.
#[derive(Debug, Clone)]
pub struct ApiKey {
    pub name: String,
    pub key: String,
}

/// TLS settings: a self-signed certificate is generated for the host.
#[derive(Debug, Clone, Copy)]
pub struct TlsConfig {
    pub self_signed: bool,
}

#[derive(Debug, Clone)]
pub struct ServerConfig {
    pub host: String,
    pub port: u16,
    pub tls: Option<TlsConfig>,
    pub api_keys: Vec<ApiKey>,
}

impl Default for ServerConfig {
    fn default() -> (r: Self)
        ensures
            r.host@ == "127.0.0.1"@,
            r.port == 8080,
            r.tls is None,
            r.api_keys@.len() == 0,
    {
        ServerConfig {
            host: String::from_str("127.0.0.1"),
            port: 8080,
            tls: None,
            api_keys: Vec::new(),
        }
    }
}

} // verus!
