//! Fit scoring of a model against the memory that the hardware offers.

use crate::models::ModelEntry;
use vstd::prelude::*;

verus! {

/// Fit classification for a model against available hardware.
#[derive(Debug, Clone, Copy, PartialEq, Eq, Structural)]
pub enum FitLevel {
    /// Model fits entirely in VRAM with room to spare
    Perfect,
    /// Model fits in VRAM with tight margin
    Good,
    /// Model may require partial CPU offloading
    Marginal,
    /// Model is too large for available resources
    TooTight,
}

impl FitLevel {
    pub fn label(&self) -> (r: &'static str)
        ensures
            r@ == match *self {
                FitLevel::Perfect => "★ Perfect"@,
                FitLevel::Good => "● Good"@,
                FitLevel::Marginal => "◐ Marginal"@,
                FitLevel::TooTight => "✗ Too Tight"@,
            },
    {
        match self {
            FitLevel::Perfect => "★ Perfect",
            FitLevel::Good => "● Good",
            FitLevel::Marginal => "◐ Marginal",
            FitLevel::TooTight => "✗ Too Tight",
        }
    }

    pub fn short(&self) -> (r: &'static str)
        ensures
            r@ == match *self {
                FitLevel::Perfect => "Perfect"@,
                FitLevel::Good => "Good"@,
                FitLevel::Marginal => "Marginal"@,
                FitLevel::TooTight => "Too Tight"@,
            },
    {
        match self {
            FitLevel::Perfect => "Perfect",
            FitLevel::Good => "Good",
            FitLevel::Marginal => "Marginal",
            FitLevel::TooTight => "Too Tight",
        }
    }
}

/// The memory a fit is judged against: VRAM when the machine has any, RAM otherwise.
pub open spec fn available_memory(vram_mb: u64, ram_mb: u64) -> u64 {
    if vram_mb > 0 { vram_mb } else { ram_mb }
}

/// The model's requirement on that same kind of memory.
pub open spec fn required_memory(model_vram_mb: u64, model_ram_mb: u64, vram_mb: u64) -> u64 {
    if vram_mb > 0 { model_vram_mb } else { model_ram_mb }
}

/// Classification by the ratio `available / required`:
/// at least 3/2 is Perfect, at least 11/10 Good, at least 4/5 Marginal,
/// below that Too Tight; an unknown (zero) side is Marginal.
pub open spec fn fit_for(available: int, required: int) -> FitLevel {
    if available == 0 || required == 0 {
        FitLevel::Marginal
    } else if 2 * available >= 3 * required {
        FitLevel::Perfect
    } else if 10 * available >= 11 * required {
        FitLevel::Good
    } else if 5 * available >= 4 * required {
        FitLevel::Marginal
    } else {
        FitLevel::TooTight
    }
}

pub open spec fn spec_score_fit(model: ModelEntry, vram_mb: u64, ram_mb: u64) -> FitLevel {
    fit_for(
        available_memory(vram_mb, ram_mb) as int,
        required_memory(model.min_vram_mb, model.min_ram_mb, vram_mb) as int,
    )
}

/// The fit of a model given by its abstract content.
pub open spec fn spec_fit_of(m: crate::models::ModelSpec, vram_mb: u64, ram_mb: u64) -> FitLevel {
    fit_for(
        available_memory(vram_mb, ram_mb) as int,
        required_memory(m.min_vram_mb, m.min_ram_mb, vram_mb) as int,
    )
}

/// The fits of a list of models, one per model.
pub open spec fn fits_of(models: Seq<crate::models::ModelSpec>, vram_mb: u64, ram_mb: u64) -> Seq<
    FitLevel,
> {
    models.map_values(|m: crate::models::ModelSpec| spec_fit_of(m, vram_mb, ram_mb))
}

/// Score how well a model fits the user's hardware.
///
/// Uses VRAM as the primary constraint. Falls back to RAM for CPU-only setups.
pub fn score_fit(model: &ModelEntry, vram_mb: u64, ram_mb: u64) -> (r: FitLevel)
    ensures
        r == spec_score_fit(*model, vram_mb, ram_mb),
        r == spec_fit_of(model@, vram_mb, ram_mb),
{
    let available: u64 = if vram_mb > 0 { vram_mb } else { ram_mb };
    let required: u64 = if vram_mb > 0 { model.min_vram_mb } else { model.min_ram_mb };

    if available == 0 || required == 0 {
        return FitLevel::Marginal;
    }
    let a: u128 = available as u128;
    let q: u128 = required as u128;
    if 2 * a >= 3 * q {
        FitLevel::Perfect
    } else if 10 * a >= 11 * q {
        FitLevel::Good
    } else if 5 * a >= 4 * q {
        FitLevel::Marginal
    } else {
        FitLevel::TooTight
    }
}

/// Score all models in a list and return them paired with fit levels.
pub fn score_all(models: &[ModelEntry], vram_mb: u64, ram_mb: u64) -> (r: Vec<(ModelEntry, FitLevel)>)
    ensures
        r.len() == models.len(),
        forall|i: int|
            0 <= i < models.len() ==> (#[trigger] r@[i]).0@ == models@[i]@ && r@[i].1
                == spec_score_fit(models@[i], vram_mb, ram_mb),
{
    let mut out: Vec<(ModelEntry, FitLevel)> = Vec::new();
    let mut i: usize = 0;
    while i < models.len()
        invariant
            i <= models.len(),
            out.len() == i,
            forall|j: int|
                0 <= j < i ==> (#[trigger] out@[j]).0@ == models@[j]@ && out@[j].1
                    == spec_score_fit(models@[j], vram_mb, ram_mb),
        decreases models.len() - i,
    {
        let m = &models[i];
        let level = score_fit(m, vram_mb, ram_mb);
        out.push((m.duplicate(), level));
        i = i + 1;
    }
    out
}


/// Position of a fit level from worst to best.
pub open spec fn fit_rank(f: FitLevel) -> int {
    match f {
        FitLevel::TooTight => 0,
        FitLevel::Marginal => 1,
        FitLevel::Good => 2,
        FitLevel::Perfect => 3,
    }
}

/// More VRAM never makes a model fit worse (a machine with VRAM is judged
/// on VRAM alone, so the RAM figures do not matter here).
pub proof fn lemma_fit_monotonic_in_vram(model: ModelEntry, vram_a: u64, vram_b: u64, ram_a: u64, ram_b: u64)
    requires
        0 < vram_a <= vram_b,
    ensures
        fit_rank(spec_score_fit(model, vram_a, ram_a)) <= fit_rank(spec_score_fit(model, vram_b, ram_b)),
{
}

} // verus!
