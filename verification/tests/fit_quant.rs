use localforge::models::fit::{score_all, score_fit, FitLevel};
use localforge::models::quant::{all_quants, recommend_quant, QuantLevel};
use localforge::models::registry::{best_fit, curated_models, recommend};
use localforge::models::ModelEntry;

fn test_model(min_vram: u64, min_ram: u64) -> ModelEntry {
    ModelEntry {
        name: "Test".into(),
        repo: "test/test".into(),
        params: "7B".into(),
        quantization: "Q4_K_M".into(),
        size_label: "~5 GB".into(),
        context_length: "8K".into(),
        min_vram_mb: min_vram,
        min_ram_mb: min_ram,
        description: "test model".into(),
        estimated_toks: "~30 tok/s".into(),
    }
}

#[test]
fn test_perfect_fit() {
    let m = test_model(4096, 8192);
    assert_eq!(score_fit(&m, 8192, 16384), FitLevel::Perfect);
}

#[test]
fn test_good_fit() {
    let m = test_model(6000, 8192);
    assert_eq!(score_fit(&m, 7000, 16384), FitLevel::Good);
}

#[test]
fn test_marginal_fit() {
    let m = test_model(6000, 8192);
    assert_eq!(score_fit(&m, 5500, 16384), FitLevel::Marginal);
}

#[test]
fn test_too_tight() {
    let m = test_model(12288, 16384);
    assert_eq!(score_fit(&m, 4096, 8192), FitLevel::TooTight);
}

#[test]
fn test_cpu_fallback() {
    let m = test_model(6000, 4096);
    // VRAM = 0 means CPU-only, so uses RAM
    assert_eq!(score_fit(&m, 0, 16384), FitLevel::Perfect);
}

#[test]
fn test_low_vram_recommends_q4() {
    assert_eq!(recommend_quant(4096), QuantLevel::Q4_K_M);
}

#[test]
fn test_mid_vram_recommends_q5() {
    assert_eq!(recommend_quant(12288), QuantLevel::Q5_K_M);
}

#[test]
fn test_high_vram_recommends_q8() {
    assert_eq!(recommend_quant(24576), QuantLevel::Q8_0);
}

#[test]
fn test_very_high_vram_recommends_f16() {
    assert_eq!(recommend_quant(49152), QuantLevel::F16);
}

#[test]
fn fit_thresholds_are_exact_ratios() {
    // 3/2 of the requirement is the first Perfect value
    assert_eq!(score_fit(&test_model(4000, 0), 6000, 0), FitLevel::Perfect);
    assert_eq!(score_fit(&test_model(4000, 0), 5999, 0), FitLevel::Good);
    // 11/10 is the first Good value
    assert_eq!(score_fit(&test_model(1000, 0), 1100, 0), FitLevel::Good);
    assert_eq!(score_fit(&test_model(1000, 0), 1099, 0), FitLevel::Marginal);
    // 4/5 is the first Marginal value
    assert_eq!(score_fit(&test_model(1000, 0), 800, 0), FitLevel::Marginal);
    assert_eq!(score_fit(&test_model(1000, 0), 799, 0), FitLevel::TooTight);
}

#[test]
fn fit_unknown_sides_are_marginal() {
    assert_eq!(score_fit(&test_model(0, 0), 8192, 16384), FitLevel::Marginal);
    assert_eq!(score_fit(&test_model(4096, 4096), 0, 0), FitLevel::Marginal);
}

#[test]
fn fit_labels() {
    assert_eq!(FitLevel::Perfect.label(), "★ Perfect");
    assert_eq!(FitLevel::TooTight.short(), "Too Tight");
    assert_eq!(FitLevel::Good.short(), "Good");
}

#[test]
fn score_all_keeps_order() {
    let models = vec![test_model(4096, 0), test_model(12288, 0)];
    let scored = score_all(&models, 8192, 16384);
    assert_eq!(scored.len(), 2);
    assert_eq!(scored[0].1, FitLevel::Perfect);
    assert_eq!(scored[1].1, FitLevel::TooTight);
    assert_eq!(scored[1].0.min_vram_mb, 12288);
}

#[test]
fn quant_boundaries() {
    assert_eq!(recommend_quant(8191), QuantLevel::Q4_K_M);
    assert_eq!(recommend_quant(8192), QuantLevel::Q5_K_M);
    assert_eq!(recommend_quant(16384), QuantLevel::Q6_K);
    assert_eq!(recommend_quant(49151), QuantLevel::Q8_0);
    assert_eq!(all_quants().len(), 5);
    assert_eq!(QuantLevel::Q6_K.label(), "Q6_K");
}

#[test]
fn registry_recommends_first_six_within_budget() {
    assert_eq!(curated_models().len(), 10);
    let r = recommend(8192, 16384);
    let names: Vec<&str> = r.iter().map(|m| m.name.as_str()).collect();
    assert_eq!(
        names,
        vec![
            "Qwen2.5-7B-Instruct",
            "Llama-3.1-8B-Instruct",
            "Mistral-7B-Instruct-v0.3",
            "Phi-3.5-mini-instruct",
            "Qwen2.5-3B-Instruct",
            "Qwen2.5-1.5B-Instruct",
        ]
    );
    assert!(r.iter().all(|m| m.min_vram_mb <= 8192));
}

#[test]
fn registry_best_fit_and_empty() {
    let b = best_fit(2048, 0).unwrap();
    assert_eq!(b.name, "Qwen2.5-1.5B-Instruct");
    assert!(best_fit(512, 0).is_none());
    assert!(recommend(512, 0).is_empty());
}

fn rank(f: FitLevel) -> u8 {
    match f {
        FitLevel::TooTight => 0,
        FitLevel::Marginal => 1,
        FitLevel::Good => 2,
        FitLevel::Perfect => 3,
    }
}

#[test]
fn more_vram_never_fits_worse() {
    let m = test_model(6000, 8192);
    let mut last: u8 = 0;
    for vram in [1000u64, 4000, 4800, 5500, 6600, 7000, 8999, 9000, 20000] {
        let r = rank(score_fit(&m, vram, 0));
        assert!(r >= last);
        last = r;
    }
}

#[test]
fn entry_display_text() {
    assert_eq!(test_model(1, 1).display_string(), "Test [Q4_K_M] (~5 GB)");
}

#[test]
fn curated_registry_is_well_formed() {
    let all = curated_models();
    assert_eq!(all.len(), 10);
    for (i, a) in all.iter().enumerate() {
        assert!(a.min_vram_mb > 0);
        assert!(a.min_vram_mb <= a.min_ram_mb);
        assert!(a.repo.ends_with("-GGUF"));
        assert!(a.quantization == "Q4_K_M" || a.quantization == "Q5_K_M");
        for b in all.iter().skip(i + 1) {
            assert_ne!(a.name, b.name);
        }
    }
}
