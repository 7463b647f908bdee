//! The OpenAI-compatible API: server settings, request handling rules and
//! per-key rate limiting.

pub mod api;
pub mod config;
pub mod rate_limit;

pub use config::{ApiKey, ServerConfig, TlsConfig};
pub use rate_limit::RateLimiter;
