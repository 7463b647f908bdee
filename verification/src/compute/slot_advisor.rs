//! Recommends llama-server slot and context settings that keep VRAM use
//! within a safety threshold.

use super::kv_cache::{
    calculate_kv_cache_size_mb, kv_size_fits, spec_bytes_per_element, spec_kv_cache_size_mb,
    KvCacheConfig, KV_DTYPE,
};
use vstd::prelude::*;

verus! {

#[derive(Debug, Clone, Copy)]
pub struct SlotAdvisorInput {
    pub model_size_mb: usize,
    pub total_vram_mb: usize,
    pub context_length: usize,
    pub kv_dtype: KV_DTYPE,
    pub target_concurrent_users: usize,
}

/// The advised server settings. The safety margin that goes with them is
/// `1 - estimated_total_vram_mb / total_vram_mb`.
#[derive(Debug, Clone, Copy)]
pub struct SlotRecommendation {
    pub parallel_slots: usize,
    pub ctx_size: usize,
    pub cache_type_k: KV_DTYPE,
    pub cache_type_v: KV_DTYPE,
    pub continuous_batching: bool,
    pub estimated_total_vram_mb: usize,
}

pub struct SlotAdvisor;

/// VRAM usable under the 85% safety threshold, rounded down.
pub open spec fn usable_vram(total_vram_mb: usize) -> int {
    (total_vram_mb * 85) / 100
}

/// VRAM left for the KV cache once the model is loaded.
pub open spec fn kv_budget(input: SlotAdvisorInput) -> int {
    if usable_vram(input.total_vram_mb) > input.model_size_mb {
        usable_vram(input.total_vram_mb) - input.model_size_mb
    } else {
        0
    }
}

/// The cache geometry assumed for one slot: a 32-layer, 32-head model with
/// 128-wide heads, sized for the expected concurrent users (at least one).
pub open spec fn slot_cache(input: SlotAdvisorInput) -> KvCacheConfig {
    KvCacheConfig {
        layers: 32,
        heads: 32,
        head_dim: 128,
        context_length: input.context_length,
        dtype: input.kv_dtype,
        batch_size: if input.target_concurrent_users > 1 {
            input.target_concurrent_users
        } else {
            1
        },
    }
}

pub open spec fn kv_per_slot(input: SlotAdvisorInput) -> int {
    spec_kv_cache_size_mb(slot_cache(input))
}

/// As many slots as the budget holds, at least one.
pub open spec fn slot_count(input: SlotAdvisorInput) -> int {
    let per = if kv_per_slot(input) > 1 { kv_per_slot(input) } else { 1 };
    let n = kv_budget(input) / per;
    if n > 1 { n } else { 1 }
}

/// Whether not even one slot's cache fits what the model leaves under the
/// safety threshold.
pub open spec fn no_slot_fits(input: SlotAdvisorInput) -> bool {
    kv_budget(input) == 0 || kv_per_slot(input) > kv_budget(input)
}

/// The advice: when no slot fits, one small slot with a quantized cache
/// and the model alone as the estimate; else as many full slots as fit.
pub open spec fn spec_recommend(input: SlotAdvisorInput) -> SlotRecommendation {
    if no_slot_fits(input) {
        SlotRecommendation {
            parallel_slots: 1,
            ctx_size: 2048,
            cache_type_k: KV_DTYPE::Q8_0,
            cache_type_v: KV_DTYPE::Q8_0,
            continuous_batching: false,
            estimated_total_vram_mb: input.model_size_mb,
        }
    } else {
        SlotRecommendation {
            parallel_slots: slot_count(input) as usize,
            ctx_size: input.context_length,
            cache_type_k: input.kv_dtype,
            cache_type_v: input.kv_dtype,
            continuous_batching: slot_count(input) > 2,
            estimated_total_vram_mb: (input.model_size_mb + kv_per_slot(input) * slot_count(
                input,
            )) as usize,
        }
    }
}

/// The inputs on which the advice can be computed without overflow: the
/// per-slot cache size fits in a `usize` whenever the model leaves room.
pub open spec fn advisable(input: SlotAdvisorInput) -> bool {
    kv_budget(input) > 0 ==> kv_size_fits(slot_cache(input))
}

impl SlotAdvisor {
    pub fn new() -> (r: Self) {
        SlotAdvisor
    }

    /// Advise as many slots as fit what the model leaves under 85% of the
    /// VRAM; when not even one does, one 2048-token slot with a Q8_0 cache,
    /// estimated at the model's size, so that use stays under the threshold.
    pub fn recommend(&self, input: &SlotAdvisorInput) -> (r: SlotRecommendation)
        requires
            advisable(*input),
        ensures
            r == spec_recommend(*input),
            usable_vram(input.total_vram_mb) > input.model_size_mb ==> r.estimated_total_vram_mb
                <= usable_vram(input.total_vram_mb),
    {
        let max_usable_vram: usize = ((input.total_vram_mb as u128 * 85) / 100) as usize;
        let model_required = input.model_size_mb;
        let available_for_kv = max_usable_vram.saturating_sub(model_required);

        if available_for_kv == 0 {
            return SlotRecommendation {
                parallel_slots: 1,
                ctx_size: 2048,
                cache_type_k: KV_DTYPE::Q8_0,
                cache_type_v: KV_DTYPE::Q8_0,
                continuous_batching: false,
                estimated_total_vram_mb: model_required,
            };
        }
        let batch_size = if input.target_concurrent_users > 1 {
            input.target_concurrent_users
        } else {
            1
        };
        let cache_config = KvCacheConfig {
            layers: 32,
            heads: 32,
            head_dim: 128,
            context_length: input.context_length,
            dtype: input.kv_dtype,
            batch_size,
        };
        assert(cache_config == slot_cache(*input));
        let kv_per_slot_mb = calculate_kv_cache_size_mb(&cache_config);
        if kv_per_slot_mb > available_for_kv {
            return SlotRecommendation {
                parallel_slots: 1,
                ctx_size: 2048,
                cache_type_k: KV_DTYPE::Q8_0,
                cache_type_v: KV_DTYPE::Q8_0,
                continuous_batching: false,
                estimated_total_vram_mb: model_required,
            };
        }
        let per = if kv_per_slot_mb > 1 { kv_per_slot_mb } else { 1 };
        let n = available_for_kv / per;
        let slots = if n > 1 { n } else { 1 };
        assert(kv_per_slot_mb * slots <= available_for_kv) by (nonlinear_arith)
            requires
                kv_per_slot_mb <= available_for_kv,
                per >= 1,
                per >= kv_per_slot_mb,
                kv_per_slot_mb <= 1 ==> per == 1,
                kv_per_slot_mb > 1 ==> per == kv_per_slot_mb,
                n == available_for_kv / per,
                slots == if n > 1 { n } else { 1 },
                available_for_kv >= 1,
        ;
        let total_vram = model_required + kv_per_slot_mb * slots;
        SlotRecommendation {
            parallel_slots: slots,
            ctx_size: input.context_length,
            cache_type_k: input.kv_dtype,
            cache_type_v: input.kv_dtype,
            continuous_batching: slots > 2,
            estimated_total_vram_mb: total_vram,
        }
    }
}

impl SlotAdvisor {
    /// The advice for inputs whose cache size can be computed; nothing for
    /// the others (whose sizes overflow a `usize`).
    pub fn recommend_checked(&self, input: &SlotAdvisorInput) -> (r: Option<SlotRecommendation>)
        ensures
            advisable(*input) <==> r is Some,
            r matches Some(x) ==> x == spec_recommend(*input),
    {
        let max_usable_vram: usize = ((input.total_vram_mb as u128 * 85) / 100) as usize;
        if max_usable_vram <= input.model_size_mb {
            return Some(self.recommend(input));
        }
        let batch_size = if input.target_concurrent_users > 1 {
            input.target_concurrent_users
        } else {
            1
        };
        let ghost c = slot_cache(*input);
        let step1: usize = 131072;
        assert(c.layers * c.heads * c.head_dim == step1);
        let step2 = match step1.checked_mul(input.context_length) {
            Some(v) => v,
            None => return None,
        };
        let step3 = match step2.checked_mul(batch_size) {
            Some(v) => v,
            None => return None,
        };
        let step4 = match step3.checked_mul(2) {
            Some(v) => v,
            None => return None,
        };
        let step5 = match step4.checked_mul(input.kv_dtype.bytes_per_element()) {
            Some(v) => v,
            None => return None,
        };
        assert(kv_size_fits(c));
        let kv = step5 / 1048576;
        assert(kv == kv_per_slot(*input));
        Some(self.recommend(input))
    }
}

/// The advice keeps model plus cache within 85% of the VRAM whenever the
/// model itself fits under that threshold.
pub proof fn lemma_recommend_within_budget(input: SlotAdvisorInput)
    requires
        usable_vram(input.total_vram_mb) > input.model_size_mb,
    ensures
        spec_recommend(input).estimated_total_vram_mb <= usable_vram(input.total_vram_mb),
{
    if !no_slot_fits(input) {
        let per = if kv_per_slot(input) > 1 { kv_per_slot(input) } else { 1 };
        let kv = kv_per_slot(input);
        let b = kv_budget(input);
        let n = b / per;
        let s = slot_count(input);
        assert(kv * s <= b) by (nonlinear_arith)
            requires
                kv <= b,
                kv >= 0,
                per >= 1,
                kv <= 1 ==> per == 1,
                kv > 1 ==> per == kv,
                n == b / per,
                s == if n > 1 { n } else { 1 },
                b >= 1,
        ;
    }
}

/// The size in MB of one slot's KV cache, as `calculate_kv_cache_size_mb`
/// gives it for the advisor's model geometry (32 layers, 32 heads of width
/// 128) at the input's context and type, with one batch entry per expected
/// concurrent user (at least one).
proof fn lemma_kv_per_slot_value(input: SlotAdvisorInput)
    ensures
        kv_per_slot(input) == spec_kv_cache_size_mb(
            KvCacheConfig {
                layers: 32,
                heads: 32,
                head_dim: 128,
                context_length: input.context_length,
                dtype: input.kv_dtype,
                batch_size: if input.target_concurrent_users > 1 {
                    input.target_concurrent_users
                } else {
                    1
                },
            },
        ),
        kv_per_slot(input) == (262144 * input.context_length * (if input.target_concurrent_users
            > 1 {
            input.target_concurrent_users as int
        } else {
            1
        }) * spec_bytes_per_element(input.kv_dtype)) / 1048576,
        kv_per_slot(input) >= 0,
{
    let b: int = if input.target_concurrent_users > 1 {
        input.target_concurrent_users as int
    } else {
        1
    };
    let n: int = input.context_length as int;
    let e: int = spec_bytes_per_element(input.kv_dtype) as int;
    assert(32 * 32 * 128 * n * b * 2 * e == 262144 * n * b * e) by (nonlinear_arith);
    assert(262144 * n * b * e >= 0) by (nonlinear_arith)
        requires
            n >= 0,
            b >= 1,
            e >= 1,
    ;
}

/// The advice for `input`, in terms of what one slot's cache needs (`kv`,
/// sized for every expected concurrent user: the cache calculation at batch
/// size max(users, 1)) and what the model leaves under 85% of the VRAM
/// (`budget`). When at least one slot fits, the advice keeps the input's
/// context and cache type, plans as many slots as fit and no more (one
/// more would overflow the budget), and estimates the model plus those
/// slots; batching is on beyond two slots. Otherwise it is one 2048-token
/// slot with a Q8_0 cache, estimated at the model alone.
pub proof fn lemma_slots_sized_for_every_user(input: SlotAdvisorInput)
    ensures
        ({
            let users: int = if input.target_concurrent_users > 1 {
                input.target_concurrent_users as int
            } else {
                1
            };
            let kv = (262144 * input.context_length * users * spec_bytes_per_element(
                input.kv_dtype,
            )) / 1048576;
            let usable = (input.total_vram_mb * 85) / 100;
            let budget = usable - input.model_size_mb;
            let r = spec_recommend(input);
            &&& (usable > input.model_size_mb && kv <= budget) ==> {
                &&& r.ctx_size == input.context_length
                &&& r.cache_type_k == input.kv_dtype
                &&& r.cache_type_v == input.kv_dtype
                &&& r.parallel_slots >= 1
                &&& r.parallel_slots * kv <= budget
                &&& (kv > 0 ==> budget < (r.parallel_slots + 1) * kv)
                &&& (kv == 0 ==> r.parallel_slots == budget)
                &&& r.estimated_total_vram_mb == input.model_size_mb + r.parallel_slots * kv
                &&& r.continuous_batching == (r.parallel_slots > 2)
            }
            &&& !(usable > input.model_size_mb && kv <= budget) ==> {
                &&& r.parallel_slots == 1
                &&& r.ctx_size == 2048
                &&& r.cache_type_k == KV_DTYPE::Q8_0
                &&& r.cache_type_v == KV_DTYPE::Q8_0
                &&& !r.continuous_batching
                &&& r.estimated_total_vram_mb == input.model_size_mb
            }
        }),
{
    lemma_kv_per_slot_value(input);
    let kv = kv_per_slot(input);
    let b = kv_budget(input);
    let usable = usable_vram(input.total_vram_mb);
    assert(usable <= input.total_vram_mb) by (nonlinear_arith)
        requires
            usable == (input.total_vram_mb * 85) / 100,
            input.total_vram_mb >= 0,
    ;
    if !no_slot_fits(input) {
        let per = if kv > 1 { kv } else { 1 };
        let n = b / per;
        let s = slot_count(input);
        assert(n >= 1 && n <= b && n * per <= b && b < (n + 1) * per) by (nonlinear_arith)
            requires
                per >= 1,
                per <= b,
                n == b / per,
        ;
        assert(s == n);
        assert(kv * s <= b) by (nonlinear_arith)
            requires
                kv <= per,
                kv >= 0,
                s >= 0,
                s == n,
                n * per <= b,
        ;
        assert(input.model_size_mb + kv * s <= usable);
        let r = spec_recommend(input);
        assert(r.parallel_slots == s);
        assert(r.parallel_slots * kv == kv * s) by (nonlinear_arith)
            requires
                r.parallel_slots == s,
        ;
        assert(r.estimated_total_vram_mb == input.model_size_mb + kv * s);
        if kv > 0 {
            assert(per == kv);
            assert(b < (r.parallel_slots + 1) * kv);
        } else {
            assert(per == 1);
            assert(n == b);
        }
        assert(r.ctx_size == input.context_length);
        assert(r.continuous_batching == (r.parallel_slots > 2));
        assert(usable > input.model_size_mb);
        assert(b == usable - input.model_size_mb);
    } else {
        let r = spec_recommend(input);
        assert(r.parallel_slots == 1);
        assert(r.estimated_total_vram_mb == input.model_size_mb);
    }
}

/// More concurrent users never get more slots: each slot's cache grows with
/// the users it serves, so fewer fit.
pub proof fn lemma_more_users_no_more_slots(a: SlotAdvisorInput, users: usize)
    requires
        a.target_concurrent_users <= users,
    ensures
        spec_recommend(SlotAdvisorInput { target_concurrent_users: users, ..a }).parallel_slots
            <= spec_recommend(a).parallel_slots,
{
    let b = SlotAdvisorInput { target_concurrent_users: users, ..a };
    lemma_kv_per_slot_value(a);
    lemma_kv_per_slot_value(b);
    lemma_slots_sized_for_every_user(a);
    lemma_slots_sized_for_every_user(b);
    let ua: int = if a.target_concurrent_users > 1 {
        a.target_concurrent_users as int
    } else {
        1
    };
    let ub: int = if users > 1 {
        users as int
    } else {
        1
    };
    let c: int = 262144 * a.context_length * spec_bytes_per_element(a.kv_dtype);
    assert(c >= 0) by (nonlinear_arith)
        requires
            c == 262144 * a.context_length * spec_bytes_per_element(a.kv_dtype),
    ;
    assert(c * ua <= c * ub) by (nonlinear_arith)
        requires
            c >= 0,
            ua <= ub,
    ;
    let e: int = spec_bytes_per_element(a.kv_dtype) as int;
    let n: int = a.context_length as int;
    assert(262144 * n * ua * e == c * ua) by (nonlinear_arith)
        requires
            c == 262144 * n * e,
    ;
    assert(262144 * n * ub * e == c * ub) by (nonlinear_arith)
        requires
            c == 262144 * n * e,
    ;
    vstd::arithmetic::div_mod::lemma_div_is_ordered(c * ua, c * ub, 1048576);
    let ka = kv_per_slot(a);
    let kb = kv_per_slot(b);
    assert(ka <= kb);
    let bud = kv_budget(a);
    assert(kv_budget(b) == bud);
    if !no_slot_fits(b) {
        let pa = if ka > 1 { ka } else { 1 };
        let pb = if kb > 1 { kb } else { 1 };
        vstd::arithmetic::div_mod::lemma_div_is_ordered_by_denominator(bud, pa, pb);
    }
}

} // verus!
