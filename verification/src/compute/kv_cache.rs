//! KV-cache size of a model configuration.

use vstd::prelude::*;

verus! {

#[derive(Debug, Clone, Copy)]
pub struct KvCacheConfig {
    pub layers: usize,
    pub heads: usize,
    pub head_dim: usize,
    pub context_length: usize,
    pub dtype: KV_DTYPE,
    pub batch_size: usize,
}

#[allow(non_camel_case_types)]
#[derive(Debug, Clone, Copy, PartialEq, Eq, Structural)]
pub enum KV_DTYPE {
    F32,
    F16,
    Q8_0,
    Q4_0,
}

pub open spec fn spec_bytes_per_element(d: KV_DTYPE) -> nat {
    match d {
        KV_DTYPE::F32 => 4,
        KV_DTYPE::F16 => 2,
        KV_DTYPE::Q8_0 => 1,
        KV_DTYPE::Q4_0 => 1,
    }
}

impl KV_DTYPE {
    pub fn bytes_per_element(&self) -> (r: usize)
        ensures
            r == spec_bytes_per_element(*self),
    {
        match self {
            Self::F32 => 4,
            Self::F16 => 2,
            Self::Q8_0 => 1,
            Self::Q4_0 => 1,
        }
    }
}

/// Number of cache elements: keys and values for every layer, head,
/// head dimension, context position and batch entry.
pub open spec fn kv_elements(c: KvCacheConfig) -> int {
    c.layers * c.heads * c.head_dim * c.context_length * c.batch_size * 2
}

/// The cache size in whole MiB (rounded down).
pub open spec fn spec_kv_cache_size_mb(c: KvCacheConfig) -> int {
    (kv_elements(c) * spec_bytes_per_element(c.dtype)) / 1048576int
}

/// Every intermediate product of the size computation fits in a `usize`.
pub open spec fn kv_size_fits(c: KvCacheConfig) -> bool {
    &&& c.layers * c.heads <= usize::MAX
    &&& c.layers * c.heads * c.head_dim <= usize::MAX
    &&& c.layers * c.heads * c.head_dim * c.context_length <= usize::MAX
    &&& c.layers * c.heads * c.head_dim * c.context_length * c.batch_size <= usize::MAX
    &&& kv_elements(c) <= usize::MAX
    &&& kv_elements(c) * spec_bytes_per_element(c.dtype) <= usize::MAX
}

pub fn calculate_kv_cache_size_mb(config: &KvCacheConfig) -> (r: usize)
    requires
        kv_size_fits(*config),
    ensures
        r == spec_kv_cache_size_mb(*config),
{
    let a = config.layers * config.heads;
    let b = a * config.head_dim;
    let c = b * config.context_length;
    let d = c * config.batch_size;
    let elems = d * 2;
    let bytes = elems * config.dtype.bytes_per_element();
    bytes / (1024 * 1024)
}

/// A longer context never needs a smaller cache.
pub proof fn lemma_cache_grows_with_context(c: KvCacheConfig, context_length: usize)
    requires
        c.context_length <= context_length,
    ensures
        spec_kv_cache_size_mb(c) <= spec_kv_cache_size_mb(
            KvCacheConfig { context_length, ..c },
        ),
{
    let d = KvCacheConfig { context_length, ..c };
    let bpe: nat = spec_bytes_per_element(c.dtype);
    let base: int = c.layers * c.heads * c.head_dim;
    let rest: int = c.batch_size * 2 * bpe;
    let ea: int = kv_elements(c);
    let eb: int = kv_elements(d);
    assert(ea == c.layers * c.heads * c.head_dim * c.context_length * c.batch_size * 2);
    assert(eb == c.layers * c.heads * c.head_dim * context_length * c.batch_size * 2);
    let l: int = c.layers as int;
    let h: int = c.heads as int;
    let hd: int = c.head_dim as int;
    let n: int = c.context_length as int;
    let m: int = context_length as int;
    let bs: int = c.batch_size as int;
    assert(ea * bpe == base * c.context_length * rest) by (nonlinear_arith)
        requires
            ea == l * h * hd * n * bs * 2,
            base == l * h * hd,
            rest == bs * 2 * bpe,
            n == c.context_length,
    ;
    assert(eb * bpe == base * context_length * rest) by (nonlinear_arith)
        requires
            eb == l * h * hd * m * bs * 2,
            base == l * h * hd,
            rest == bs * 2 * bpe,
            m == context_length,
    ;
    assert(base * c.context_length * rest <= base * context_length * rest) by (nonlinear_arith)
        requires
            c.context_length <= context_length,
            base >= 0,
            rest >= 0,
    ;
    let a: int = base * c.context_length * rest;
    let b: int = base * context_length * rest;
    assert(a / 1048576 <= b / 1048576) by (nonlinear_arith)
        requires
            a <= b,
    ;
}

} // verus!
