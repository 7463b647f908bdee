//! The curated model registry and hardware-budget recommendations.

use crate::models::{ModelEntry, ModelSpec};
use crate::text::ends_with;
use vstd::prelude::*;
use vstd::string::*;

verus! {

/// The curated registry: well-known GGUF models grouped by VRAM tier,
/// largest tier first.
pub open spec fn curated_spec() -> Seq<ModelSpec> {
    seq![
        // --- Tier 1: >= 16 GB VRAM ---
        ModelSpec {
            name: "Qwen2.5-14B-Instruct"@,
            repo: "Qwen/Qwen2.5-14B-Instruct-GGUF"@,
            params: "14B"@,
            quantization: "Q5_K_M"@,
            size_label: "~11 GB"@,
            context_length: "32K"@,
            min_vram_mb: 12288,
            min_ram_mb: 16384,
            description: "High-quality 14B instruction model, excellent reasoning"@,
            estimated_toks: "~15 tok/s"@,
        },
        ModelSpec {
            name: "Llama-3.1-70B-Instruct"@,
            repo: "bartowski/Meta-Llama-3.1-70B-Instruct-GGUF"@,
            params: "70B"@,
            quantization: "Q4_K_M"@,
            size_label: "~40 GB"@,
            context_length: "128K"@,
            min_vram_mb: 40960,
            min_ram_mb: 65536,
            description: "Meta flagship 70B, state-of-art open model"@,
            estimated_toks: "~5 tok/s"@,
        },
        // --- Tier 2: >= 8 GB VRAM ---
        ModelSpec {
            name: "Qwen2.5-7B-Instruct"@,
            repo: "Qwen/Qwen2.5-7B-Instruct-GGUF"@,
            params: "7B"@,
            quantization: "Q5_K_M"@,
            size_label: "~5.5 GB"@,
            context_length: "32K"@,
            min_vram_mb: 6144,
            min_ram_mb: 8192,
            description: "Balanced 7B model with strong multilingual support"@,
            estimated_toks: "~30 tok/s"@,
        },
        ModelSpec {
            name: "Llama-3.1-8B-Instruct"@,
            repo: "bartowski/Meta-Llama-3.1-8B-Instruct-GGUF"@,
            params: "8B"@,
            quantization: "Q5_K_M"@,
            size_label: "~5.7 GB"@,
            context_length: "128K"@,
            min_vram_mb: 6144,
            min_ram_mb: 8192,
            description: "Meta 8B, excellent general-purpose model"@,
            estimated_toks: "~28 tok/s"@,
        },
        ModelSpec {
            name: "Mistral-7B-Instruct-v0.3"@,
            repo: "bartowski/Mistral-7B-Instruct-v0.3-GGUF"@,
            params: "7B"@,
            quantization: "Q5_K_M"@,
            size_label: "~5.1 GB"@,
            context_length: "32K"@,
            min_vram_mb: 6144,
            min_ram_mb: 8192,
            description: "Fast and efficient 7B instruction model"@,
            estimated_toks: "~32 tok/s"@,
        },
        // --- Tier 3: >= 6 GB VRAM ---
        ModelSpec {
            name: "Phi-3.5-mini-instruct"@,
            repo: "bartowski/Phi-3.5-mini-instruct-GGUF"@,
            params: "3.8B"@,
            quantization: "Q5_K_M"@,
            size_label: "~2.8 GB"@,
            context_length: "128K"@,
            min_vram_mb: 4096,
            min_ram_mb: 6144,
            description: "Microsoft compact model, great for constrained hardware"@,
            estimated_toks: "~45 tok/s"@,
        },
        ModelSpec {
            name: "Qwen2.5-3B-Instruct"@,
            repo: "Qwen/Qwen2.5-3B-Instruct-GGUF"@,
            params: "3B"@,
            quantization: "Q5_K_M"@,
            size_label: "~2.4 GB"@,
            context_length: "32K"@,
            min_vram_mb: 3072,
            min_ram_mb: 4096,
            description: "Compact 3B model, punches above its weight"@,
            estimated_toks: "~50 tok/s"@,
        },
        // --- Tier 4: >= 4 GB VRAM / low-end ---
        ModelSpec {
            name: "Qwen2.5-1.5B-Instruct"@,
            repo: "Qwen/Qwen2.5-1.5B-Instruct-GGUF"@,
            params: "1.5B"@,
            quantization: "Q5_K_M"@,
            size_label: "~1.2 GB"@,
            context_length: "32K"@,
            min_vram_mb: 2048,
            min_ram_mb: 3072,
            description: "Tiny but capable 1.5B model"@,
            estimated_toks: "~70 tok/s"@,
        },
        ModelSpec {
            name: "TinyLlama-1.1B-Chat"@,
            repo: "TheBloke/TinyLlama-1.1B-Chat-v1.0-GGUF"@,
            params: "1.1B"@,
            quantization: "Q4_K_M"@,
            size_label: "~0.7 GB"@,
            context_length: "2K"@,
            min_vram_mb: 1024,
            min_ram_mb: 2048,
            description: "Ultra-lightweight chat model, runs anywhere"@,
            estimated_toks: "~90 tok/s"@,
        },
        ModelSpec {
            name: "SmolLM2-1.7B-Instruct"@,
            repo: "bartowski/SmolLM2-1.7B-Instruct-GGUF"@,
            params: "1.7B"@,
            quantization: "Q5_K_M"@,
            size_label: "~1.3 GB"@,
            context_length: "8K"@,
            min_vram_mb: 2048,
            min_ram_mb: 3072,
            description: "HuggingFace compact model, efficient inference"@,
            estimated_toks: "~65 tok/s"@,
        },
    ]
}

/// The abstract content of a list of model entries.
pub open spec fn entries_view(v: Seq<ModelEntry>) -> Seq<ModelSpec> {
    v.map_values(|m: ModelEntry| m@)
}

fn entry(
    name: &str,
    repo: &str,
    params: &str,
    quantization: &str,
    size_label: &str,
    context_length: &str,
    min_vram_mb: u64,
    min_ram_mb: u64,
    description: &str,
    estimated_toks: &str,
) -> (r: ModelEntry)
    ensures
        r@ == (ModelSpec {
            name: name@,
            repo: repo@,
            params: params@,
            quantization: quantization@,
            size_label: size_label@,
            context_length: context_length@,
            min_vram_mb,
            min_ram_mb,
            description: description@,
            estimated_toks: estimated_toks@,
        }),
{
    ModelEntry {
        name: String::from_str(name),
        repo: String::from_str(repo),
        params: String::from_str(params),
        quantization: String::from_str(quantization),
        size_label: String::from_str(size_label),
        context_length: String::from_str(context_length),
        min_vram_mb,
        min_ram_mb,
        description: String::from_str(description),
        estimated_toks: String::from_str(estimated_toks),
    }
}

/// Return the curated model registry, a static list of well-known GGUF models
/// grouped by VRAM tier. This avoids any network calls at startup.
pub fn curated_models() -> (r: Vec<ModelEntry>)
    ensures
        entries_view(r@) == curated_spec(),
{
    let mut v: Vec<ModelEntry> = Vec::new();
    // --- Tier 1: >= 16 GB VRAM ---
    v.push(entry(
        "Qwen2.5-14B-Instruct",
        "Qwen/Qwen2.5-14B-Instruct-GGUF",
        "14B",
        "Q5_K_M",
        "~11 GB",
        "32K",
        12288,
        16384,
        "High-quality 14B instruction model, excellent reasoning",
        "~15 tok/s",
    ));
    v.push(entry(
        "Llama-3.1-70B-Instruct",
        "bartowski/Meta-Llama-3.1-70B-Instruct-GGUF",
        "70B",
        "Q4_K_M",
        "~40 GB",
        "128K",
        40960,
        65536,
        "Meta flagship 70B, state-of-art open model",
        "~5 tok/s",
    ));
    // --- Tier 2: >= 8 GB VRAM ---
    v.push(entry(
        "Qwen2.5-7B-Instruct",
        "Qwen/Qwen2.5-7B-Instruct-GGUF",
        "7B",
        "Q5_K_M",
        "~5.5 GB",
        "32K",
        6144,
        8192,
        "Balanced 7B model with strong multilingual support",
        "~30 tok/s",
    ));
    v.push(entry(
        "Llama-3.1-8B-Instruct",
        "bartowski/Meta-Llama-3.1-8B-Instruct-GGUF",
        "8B",
        "Q5_K_M",
        "~5.7 GB",
        "128K",
        6144,
        8192,
        "Meta 8B, excellent general-purpose model",
        "~28 tok/s",
    ));
    v.push(entry(
        "Mistral-7B-Instruct-v0.3",
        "bartowski/Mistral-7B-Instruct-v0.3-GGUF",
        "7B",
        "Q5_K_M",
        "~5.1 GB",
        "32K",
        6144,
        8192,
        "Fast and efficient 7B instruction model",
        "~32 tok/s",
    ));
    // --- Tier 3: >= 6 GB VRAM ---
    v.push(entry(
        "Phi-3.5-mini-instruct",
        "bartowski/Phi-3.5-mini-instruct-GGUF",
        "3.8B",
        "Q5_K_M",
        "~2.8 GB",
        "128K",
        4096,
        6144,
        "Microsoft compact model, great for constrained hardware",
        "~45 tok/s",
    ));
    v.push(entry(
        "Qwen2.5-3B-Instruct",
        "Qwen/Qwen2.5-3B-Instruct-GGUF",
        "3B",
        "Q5_K_M",
        "~2.4 GB",
        "32K",
        3072,
        4096,
        "Compact 3B model, punches above its weight",
        "~50 tok/s",
    ));
    // --- Tier 4: >= 4 GB VRAM / low-end ---
    v.push(entry(
        "Qwen2.5-1.5B-Instruct",
        "Qwen/Qwen2.5-1.5B-Instruct-GGUF",
        "1.5B",
        "Q5_K_M",
        "~1.2 GB",
        "32K",
        2048,
        3072,
        "Tiny but capable 1.5B model",
        "~70 tok/s",
    ));
    v.push(entry(
        "TinyLlama-1.1B-Chat",
        "TheBloke/TinyLlama-1.1B-Chat-v1.0-GGUF",
        "1.1B",
        "Q4_K_M",
        "~0.7 GB",
        "2K",
        1024,
        2048,
        "Ultra-lightweight chat model, runs anywhere",
        "~90 tok/s",
    ));
    v.push(entry(
        "SmolLM2-1.7B-Instruct",
        "bartowski/SmolLM2-1.7B-Instruct-GGUF",
        "1.7B",
        "Q5_K_M",
        "~1.3 GB",
        "8K",
        2048,
        3072,
        "HuggingFace compact model, efficient inference",
        "~65 tok/s",
    ));
    assert(entries_view(v@) =~= curated_spec());
    v
}

/// Whether a model fits the budget: its VRAM need when the machine has VRAM,
/// its RAM need otherwise.
pub open spec fn within_budget(m: ModelSpec, vram_mb: u64, ram_mb: u64) -> bool {
    if vram_mb > 0 {
        m.min_vram_mb <= vram_mb
    } else {
        m.min_ram_mb <= ram_mb
    }
}

/// The entries of `s` within budget, in the order they come.
pub open spec fn fitting(s: Seq<ModelSpec>, vram_mb: u64, ram_mb: u64) -> Seq<ModelSpec>
    decreases s.len(),
{
    if s.len() == 0 {
        seq![]
    } else {
        let rest = fitting(s.drop_last(), vram_mb, ram_mb);
        if within_budget(s.last(), vram_mb, ram_mb) {
            rest.push(s.last())
        } else {
            rest
        }
    }
}

/// The first `n` elements of `s`, or all of them when there are fewer.
pub open spec fn at_most<A>(s: Seq<A>, n: nat) -> Seq<A> {
    if s.len() <= n {
        s
    } else {
        s.take(n as int)
    }
}

/// Maximum number of recommendations returned.
pub const MAX_RECOMMENDATIONS: usize = 6;

/// The recommendation list: the first six curated models within budget.
pub open spec fn spec_recommend(vram_mb: u64, ram_mb: u64) -> Seq<ModelSpec> {
    at_most(fitting(curated_spec(), vram_mb, ram_mb), 6)
}

proof fn lemma_fitting_len(s: Seq<ModelSpec>, vram_mb: u64, ram_mb: u64)
    ensures
        fitting(s, vram_mb, ram_mb).len() <= s.len(),
    decreases s.len(),
{
    if s.len() > 0 {
        lemma_fitting_len(s.drop_last(), vram_mb, ram_mb);
    }
}

/// Every entry of `fitting(s)` is within budget.
pub proof fn lemma_fitting_within_budget(s: Seq<ModelSpec>, vram_mb: u64, ram_mb: u64)
    ensures
        forall|i: int|
            0 <= i < fitting(s, vram_mb, ram_mb).len() ==> within_budget(
                #[trigger] fitting(s, vram_mb, ram_mb)[i],
                vram_mb,
                ram_mb,
            ),
    decreases s.len(),
{
    if s.len() > 0 {
        lemma_fitting_within_budget(s.drop_last(), vram_mb, ram_mb);
        let rest = fitting(s.drop_last(), vram_mb, ram_mb);
        assert forall|i: int|
            0 <= i < fitting(s, vram_mb, ram_mb).len() implies within_budget(
                #[trigger] fitting(s, vram_mb, ram_mb)[i],
                vram_mb,
                ram_mb,
            ) by {
            if i < rest.len() {
                assert(fitting(s, vram_mb, ram_mb)[i] == rest[i]);
            }
        }
    }
}

/// Recommend models that fit within the user's hardware budget.
pub fn recommend(vram_mb: u64, ram_mb: u64) -> (r: Vec<ModelEntry>)
    ensures
        entries_view(r@) == spec_recommend(vram_mb, ram_mb),
{
    let all = curated_models();
    let ghost all_v = entries_view(all@);
    let mut out: Vec<ModelEntry> = Vec::new();
    let mut i: usize = 0;
    while i < all.len()
        invariant
            i <= all.len(),
            all_v == entries_view(all@),
            all_v.len() == all.len(),
            entries_view(out@) == at_most(fitting(all_v.take(i as int), vram_mb, ram_mb), 6),
        decreases all.len() - i,
    {
        let ghost prev = all_v.take(i as int);
        assert(all_v.take(i + 1).drop_last() =~= prev);
        assert(all_v.take(i + 1).last() == all@[i as int]@);
        let m = &all[i];
        let fits = if vram_mb > 0 { m.min_vram_mb <= vram_mb } else { m.min_ram_mb <= ram_mb };
        if fits && out.len() < MAX_RECOMMENDATIONS {
            let ghost before = entries_view(out@);
            out.push(m.duplicate());
            assert(entries_view(out@) =~= before.push(m@));
        }
        proof {
            lemma_fitting_len(prev, vram_mb, ram_mb);
        }
        i = i + 1;
    }
    assert(all_v.take(all.len() as int) =~= all_v);
    out
}

/// Return a single best-fit recommendation: the first recommended model.
pub fn best_fit(vram_mb: u64, ram_mb: u64) -> (r: Option<ModelEntry>)
    ensures
        spec_recommend(vram_mb, ram_mb).len() == 0 ==> r is None,
        spec_recommend(vram_mb, ram_mb).len() > 0 ==> r is Some && r->0@ == spec_recommend(
            vram_mb,
            ram_mb,
        )[0],
{
    let recs = recommend(vram_mb, ram_mb);
    if recs.len() == 0 {
        None
    } else {
        assert(entries_view(recs@)[0] == recs@[0]@);
        Some(recs[0].duplicate())
    }
}

/// Every recommended model fits the machine's memory (VRAM when it has
/// any, RAM otherwise), and there are never more than six.
pub proof fn lemma_recommendations_fit(vram_mb: u64, ram_mb: u64)
    ensures
        spec_recommend(vram_mb, ram_mb).len() <= 6,
        forall|i: int|
            0 <= i < spec_recommend(vram_mb, ram_mb).len() ==> within_budget(
                #[trigger] spec_recommend(vram_mb, ram_mb)[i],
                vram_mb,
                ram_mb,
            ),
{
    let f = fitting(curated_spec(), vram_mb, ram_mb);
    lemma_fitting_within_budget(curated_spec(), vram_mb, ram_mb);
    assert forall|i: int| 0 <= i < spec_recommend(vram_mb, ram_mb).len() implies within_budget(
        #[trigger] spec_recommend(vram_mb, ram_mb)[i],
        vram_mb,
        ram_mb,
    ) by {
        assert(spec_recommend(vram_mb, ram_mb)[i] == f[i]);
    }
}


/// What the registry promises of each curated model: it needs some VRAM
/// and no more VRAM than RAM, comes from a GGUF repository, and is offered
/// in one of the two quantizations Q4_K_M and Q5_K_M.
pub open spec fn curated_entry_ok(m: ModelSpec) -> bool {
    &&& 0 < m.min_vram_mb <= m.min_ram_mb
    &&& ends_with(m.repo, "-GGUF"@)
    &&& (m.quantization == "Q4_K_M"@ || m.quantization == "Q5_K_M"@)
}

/// The curated registry lists each model once under its own name, and every
/// model in it meets `curated_entry_ok`.
pub proof fn lemma_curated_registry_well_formed()
    ensures
        forall|i: int, j: int|
            0 <= i < j < curated_spec().len() ==> #[trigger] curated_spec()[i].name
                != #[trigger] curated_spec()[j].name,
        forall|i: int| 0 <= i < curated_spec().len() ==> curated_entry_ok(#[trigger] curated_spec()[i]),
{
    let s = curated_spec();
    reveal_strlit("Qwen2.5-14B-Instruct");
    reveal_strlit("Llama-3.1-70B-Instruct");
    reveal_strlit("Qwen2.5-7B-Instruct");
    reveal_strlit("Llama-3.1-8B-Instruct");
    reveal_strlit("Mistral-7B-Instruct-v0.3");
    reveal_strlit("Phi-3.5-mini-instruct");
    reveal_strlit("Qwen2.5-3B-Instruct");
    reveal_strlit("Qwen2.5-1.5B-Instruct");
    reveal_strlit("TinyLlama-1.1B-Chat");
    reveal_strlit("SmolLM2-1.7B-Instruct");
    reveal_strlit("Qwen/Qwen2.5-14B-Instruct-GGUF");
    reveal_strlit("bartowski/Meta-Llama-3.1-70B-Instruct-GGUF");
    reveal_strlit("Qwen/Qwen2.5-7B-Instruct-GGUF");
    reveal_strlit("bartowski/Meta-Llama-3.1-8B-Instruct-GGUF");
    reveal_strlit("bartowski/Mistral-7B-Instruct-v0.3-GGUF");
    reveal_strlit("bartowski/Phi-3.5-mini-instruct-GGUF");
    reveal_strlit("Qwen/Qwen2.5-3B-Instruct-GGUF");
    reveal_strlit("Qwen/Qwen2.5-1.5B-Instruct-GGUF");
    reveal_strlit("TheBloke/TinyLlama-1.1B-Chat-v1.0-GGUF");
    reveal_strlit("bartowski/SmolLM2-1.7B-Instruct-GGUF");
    reveal_strlit("-GGUF");
    reveal_strlit("Q4_K_M");
    reveal_strlit("Q5_K_M");
    assert(s[2].name[8] != s[6].name[8]);
    assert forall|i: int| 0 <= i < s.len() implies curated_entry_ok(#[trigger] s[i]) by {
        assert(s[i].repo.subrange(s[i].repo.len() - 5, s[i].repo.len() as int) =~= "-GGUF"@);
    }
    assert forall|i: int, j: int| 0 <= i < j < s.len() implies #[trigger] s[i].name != #[trigger] s[j].name by {
        if s[i].name.len() == s[j].name.len() && !(i == 2 && j == 6) {
            assert(s[i].name[0] != s[j].name[0]);
        }
    }
}

/// `fitting` keeps exactly the entries a filter by the budget keeps.
proof fn lemma_fitting_is_filter(
    s: Seq<ModelSpec>,
    vram_mb: u64,
    ram_mb: u64,
    pred: spec_fn(ModelSpec) -> bool,
)
    requires
        forall|m: ModelSpec| #[trigger] pred(m) == within_budget(m, vram_mb, ram_mb),
    ensures
        fitting(s, vram_mb, ram_mb) == s.filter(pred),
    decreases s.len(),
{
    reveal(Seq::filter);
    if s.len() > 0 {
        lemma_fitting_is_filter(s.drop_last(), vram_mb, ram_mb, pred);
        assert(pred(s.last()) == within_budget(s.last(), vram_mb, ram_mb));
    }
}

/// The recommendations are the first six curated models that fit the
/// machine, in registry order: with VRAM, a model fits when it needs no more
/// VRAM than there is; on a machine without VRAM (CPU only), when it needs
/// no more RAM than there is. So every curated model that fits is
/// recommended unless six are already listed, and nothing that does not fit
/// ever is.
pub proof fn lemma_recommend_first_six_that_fit(vram_mb: u64, ram_mb: u64)
    ensures
        ({
            let fits = |m: ModelSpec|
                if vram_mb > 0 {
                    m.min_vram_mb <= vram_mb
                } else {
                    m.min_ram_mb <= ram_mb
                };
            let all = curated_spec().filter(fits);
            spec_recommend(vram_mb, ram_mb) == if all.len() <= 6 {
                all
            } else {
                all.take(6)
            }
        }),
        forall|i: int|
            0 <= i < curated_spec().len() && vram_mb == 0 && #[trigger] curated_spec()[i].min_ram_mb
                <= ram_mb && spec_recommend(vram_mb, ram_mb).len() < 6 ==> spec_recommend(
                vram_mb,
                ram_mb,
            ).contains(curated_spec()[i]),
        forall|i: int|
            0 <= i < curated_spec().len() && vram_mb > 0 && #[trigger] curated_spec()[i].min_vram_mb
                <= vram_mb && spec_recommend(vram_mb, ram_mb).len() < 6 ==> spec_recommend(
                vram_mb,
                ram_mb,
            ).contains(curated_spec()[i]),
        forall|i: int|
            0 <= i < spec_recommend(vram_mb, ram_mb).len() ==> curated_spec().contains(
                #[trigger] spec_recommend(vram_mb, ram_mb)[i],
            ) && (if vram_mb > 0 {
                spec_recommend(vram_mb, ram_mb)[i].min_vram_mb <= vram_mb
            } else {
                spec_recommend(vram_mb, ram_mb)[i].min_ram_mb <= ram_mb
            }),
{
    let fits = |m: ModelSpec|
        if vram_mb > 0 {
            m.min_vram_mb <= vram_mb
        } else {
            m.min_ram_mb <= ram_mb
        };
    let c = curated_spec();
    let all = c.filter(fits);
    lemma_fitting_is_filter(c, vram_mb, ram_mb, fits);
    let r = spec_recommend(vram_mb, ram_mb);
    assert(r == if all.len() <= 6 { all } else { all.take(6) });
    assert forall|i: int| 0 <= i < c.len() && fits(c[i]) && r.len() < 6 implies r.contains(c[i]) by {
        c.lemma_filter_contains(fits, i);
        assert(all.len() <= 6);
    }
    assert forall|i: int|
        0 <= i < c.len() && vram_mb == 0 && #[trigger] c[i].min_ram_mb <= ram_mb && r.len()
            < 6 implies r.contains(c[i]) by {
        assert(fits(c[i]));
    }
    assert forall|i: int|
        0 <= i < c.len() && vram_mb > 0 && #[trigger] c[i].min_vram_mb <= vram_mb && r.len()
            < 6 implies r.contains(c[i]) by {
        assert(fits(c[i]));
    }
    assert forall|i: int| 0 <= i < r.len() implies c.contains(#[trigger] r[i]) && fits(r[i]) by {
        assert(r[i] == all[i]);
        c.lemma_filter_pred(fits, i);
        c.lemma_filter_contains_rev(fits, all[i]);
    }
}

} // verus!
