//! KV-cache sizing and the parallel-slot advisor.

pub mod kv_cache;
pub mod slot_advisor;
