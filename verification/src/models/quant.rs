//! Quantization recommendations based on available hardware.

use vstd::prelude::*;

verus! {

#[allow(non_camel_case_types)]
#[derive(Debug, Clone, Copy, PartialEq, Eq, Structural)]
pub enum QuantLevel {
    Q4_K_M,
    Q5_K_M,
    Q6_K,
    Q8_0,
    F16,
}

impl QuantLevel {
    pub fn label(&self) -> (r: &'static str)
        ensures
            r@ == match *self {
                QuantLevel::Q4_K_M => "Q4_K_M"@,
                QuantLevel::Q5_K_M => "Q5_K_M"@,
                QuantLevel::Q6_K => "Q6_K"@,
                QuantLevel::Q8_0 => "Q8_0"@,
                QuantLevel::F16 => "F16"@,
            },
    {
        match self {
            QuantLevel::Q4_K_M => "Q4_K_M",
            QuantLevel::Q5_K_M => "Q5_K_M",
            QuantLevel::Q6_K => "Q6_K",
            QuantLevel::Q8_0 => "Q8_0",
            QuantLevel::F16 => "F16",
        }
    }

    pub fn description(&self) -> (r: &'static str)
        ensures
            r@ == match *self {
                QuantLevel::Q4_K_M => "Best trade-off between quality and size (recommended)"@,
                QuantLevel::Q5_K_M => "Good balance, slightly better quality than Q4"@,
                QuantLevel::Q6_K => "High quality, needs more VRAM"@,
                QuantLevel::Q8_0 => "Near-lossless, large memory footprint"@,
                QuantLevel::F16 => "Full precision, maximum quality (2x size)"@,
            },
    {
        match self {
            QuantLevel::Q4_K_M => "Best trade-off between quality and size (recommended)",
            QuantLevel::Q5_K_M => "Good balance, slightly better quality than Q4",
            QuantLevel::Q6_K => "High quality, needs more VRAM",
            QuantLevel::Q8_0 => "Near-lossless, large memory footprint",
            QuantLevel::F16 => "Full precision, maximum quality (2x size)",
        }
    }
}

/// Rank of a quantization level, from lowest (0) to highest quality (4).
pub open spec fn quant_rank(q: QuantLevel) -> int {
    match q {
        QuantLevel::Q4_K_M => 0,
        QuantLevel::Q5_K_M => 1,
        QuantLevel::Q6_K => 2,
        QuantLevel::Q8_0 => 3,
        QuantLevel::F16 => 4,
    }
}

/// The VRAM tiers: >= 48 GB F16, >= 24 GB Q8_0, >= 16 GB Q6_K,
/// >= 8 GB Q5_K_M, below that Q4_K_M.
pub open spec fn spec_recommend_quant(vram_mb: u64) -> QuantLevel {
    if vram_mb >= 49152 {
        QuantLevel::F16
    } else if vram_mb >= 24576 {
        QuantLevel::Q8_0
    } else if vram_mb >= 16384 {
        QuantLevel::Q6_K
    } else if vram_mb >= 8192 {
        QuantLevel::Q5_K_M
    } else {
        QuantLevel::Q4_K_M
    }
}

/// Recommend a quantization level based on available VRAM.
pub fn recommend_quant(vram_mb: u64) -> (r: QuantLevel)
    ensures
        r == spec_recommend_quant(vram_mb),
{
    if vram_mb >= 49152 {
        QuantLevel::F16
    } else if vram_mb >= 24576 {
        QuantLevel::Q8_0
    } else if vram_mb >= 16384 {
        QuantLevel::Q6_K
    } else if vram_mb >= 8192 {
        QuantLevel::Q5_K_M
    } else {
        QuantLevel::Q4_K_M
    }
}

/// More VRAM never yields a lower-quality recommendation.
pub proof fn lemma_recommend_quant_monotonic(a: u64, b: u64)
    requires
        a <= b,
    ensures
        quant_rank(spec_recommend_quant(a)) <= quant_rank(spec_recommend_quant(b)),
{
}

/// Return all quantization levels from lowest to highest quality.
pub fn all_quants() -> (r: &'static [QuantLevel])
    ensures
        r@ == seq![
            QuantLevel::Q4_K_M,
            QuantLevel::Q5_K_M,
            QuantLevel::Q6_K,
            QuantLevel::Q8_0,
            QuantLevel::F16,
        ],
{
    &[QuantLevel::Q4_K_M, QuantLevel::Q5_K_M, QuantLevel::Q6_K, QuantLevel::Q8_0, QuantLevel::F16]
}

} // verus!
