use localforge::compute::kv_cache::{calculate_kv_cache_size_mb, KvCacheConfig, KV_DTYPE};
use localforge::compute::slot_advisor::{SlotAdvisor, SlotAdvisorInput};
use localforge::config::state::{AppState, ExpertiseLevel};
use localforge::config::{
    config_path_for, default_for, model_file_path_for, get_log_dir, log_dir_for, resolve_with_home, state_path_for,
    AppConfig, BackendName,
};
use localforge::error::{exhausted_error, is_retryable, retry_step, LocalForgeError, RetryStep};
use localforge::inference::session::{ChatMessage, ChatRole, ChatSession};
use localforge::text::{
    decimal_string, hex16, join_strings, parse_u32, parse_u64, remove_char, split_on,
    trim_chars,
};
use localforge::tui::backend_description;

#[test]
fn retryable_errors() {
    assert!(is_retryable(&LocalForgeError::Network("x".into())));
    assert!(is_retryable(&LocalForgeError::DownloadFailed("x".into())));
    assert!(is_retryable(&LocalForgeError::Io(std::io::Error::new(std::io::ErrorKind::Other, "x"))));
    assert!(!is_retryable(&LocalForgeError::ConfigError("x".into())));
    assert!(!is_retryable(&LocalForgeError::Cancelled));
}

#[test]
fn retry_steps() {
    assert_eq!(retry_step(3, 0, true), RetryStep::BackoffThenRetry(1));
    assert_eq!(retry_step(3, 1, true), RetryStep::BackoffThenRetry(2));
    assert_eq!(retry_step(3, 2, true), RetryStep::Exhausted);
    assert_eq!(retry_step(3, 0, false), RetryStep::Fail);
    match exhausted_error(None) {
        LocalForgeError::Other(m) => assert_eq!(m, "Operation failed after all retries"),
        e => panic!("unexpected {:?}", e),
    }
    assert!(matches!(
        exhausted_error(Some(LocalForgeError::Network("down".into()))),
        LocalForgeError::Network(_)
    ));
}

#[test]
fn kv_cache_size() {
    let c = KvCacheConfig {
        layers: 32,
        heads: 32,
        head_dim: 128,
        context_length: 4096,
        dtype: KV_DTYPE::F16,
        batch_size: 1,
    };
    assert_eq!(calculate_kv_cache_size_mb(&c), 2048);
    let q = KvCacheConfig { dtype: KV_DTYPE::Q8_0, batch_size: 2, ..c };
    assert_eq!(calculate_kv_cache_size_mb(&q), 2048);
    let f = KvCacheConfig { dtype: KV_DTYPE::F32, context_length: 1000, ..c };
    // 32*32*128*1000*2*4 bytes = 1_048_576_000 bytes = 1000 MiB
    assert_eq!(calculate_kv_cache_size_mb(&f), 1000);
    assert_eq!(KV_DTYPE::Q4_0.bytes_per_element(), 1);
    let longer = KvCacheConfig { context_length: 8192, ..c };
    assert!(calculate_kv_cache_size_mb(&longer) >= calculate_kv_cache_size_mb(&c));
    assert_eq!(calculate_kv_cache_size_mb(&longer), 4096);
}

#[test]
fn slot_advice() {
    let advisor = SlotAdvisor::new();
    let roomy = SlotAdvisorInput {
        model_size_mb: 4096,
        total_vram_mb: 24576,
        context_length: 4096,
        kv_dtype: KV_DTYPE::F16,
        target_concurrent_users: 1,
    };
    // usable 20889, budget 16793, 2048 per slot -> 8 slots
    let r = advisor.recommend(&roomy);
    assert_eq!(r.parallel_slots, 8);
    assert_eq!(r.ctx_size, 4096);
    assert!(r.continuous_batching);
    assert_eq!(r.estimated_total_vram_mb, 4096 + 8 * 2048);
    // within 85% of the VRAM
    assert!(r.estimated_total_vram_mb <= 24576 * 85 / 100);
    let tight = SlotAdvisorInput { model_size_mb: 8000, total_vram_mb: 8192, ..roomy };
    let t = advisor.recommend(&tight);
    assert_eq!(t.parallel_slots, 1);
    assert_eq!(t.ctx_size, 2048);
    assert_eq!(t.cache_type_k, KV_DTYPE::Q8_0);
    assert!(!t.continuous_batching);
    assert_eq!(t.estimated_total_vram_mb, 8000);
    assert!(advisor.recommend_checked(&roomy).is_some());
    let huge = SlotAdvisorInput { context_length: usize::MAX, ..roomy };
    assert!(advisor.recommend_checked(&huge).is_none());
}

#[test]
fn slot_advice_falls_back_when_one_slot_does_not_fit() {
    let advisor = SlotAdvisor::new();
    // usable 8500, budget 500, one slot needs 2048
    let input = SlotAdvisorInput {
        model_size_mb: 8000,
        total_vram_mb: 10000,
        context_length: 4096,
        kv_dtype: KV_DTYPE::F16,
        target_concurrent_users: 1,
    };
    let r = advisor.recommend(&input);
    assert_eq!(r.parallel_slots, 1);
    assert_eq!(r.ctx_size, 2048);
    assert_eq!(r.cache_type_k, KV_DTYPE::Q8_0);
    assert_eq!(r.cache_type_v, KV_DTYPE::Q8_0);
    assert!(!r.continuous_batching);
    assert_eq!(r.estimated_total_vram_mb, 8000);
    assert!(r.estimated_total_vram_mb <= 10000 * 85 / 100);
}

#[test]
fn chat_session_keeps_order() {
    let mut s = ChatSession::new(4096);
    s.add_message(ChatMessage::new(ChatRole::User, "a".into()));
    s.add_message(ChatMessage::new(ChatRole::Assistant, "b".into()));
    assert_eq!(s.messages.len(), 2);
    assert_eq!(s.messages[1].content, "b");
    s.clear();
    assert!(s.messages.is_empty());
    assert_eq!(s.max_context, 4096);
    assert_eq!(ChatRole::System.api_name(), "system");
}

#[test]
fn config_defaults_and_paths() {
    let c = AppConfig::default();
    assert_eq!(c.install_prefix, "~/.local");
    assert!(c.backend.is_none());
    assert!(!c.headless);
    assert!(c.models_dir.ends_with("models"));
    let d = default_for(Some("/data".into()));
    assert_eq!(d.models_dir, "/data/localforge/models");
    assert_eq!(default_for(None).models_dir, "~/.local/share/localforge/models");
    assert_eq!(resolve_with_home("~/.local", Some("/home/u".into())), "/home/u/.local");
    assert_eq!(resolve_with_home("~", Some("/home/u".into())), "/home/u");
    assert_eq!(resolve_with_home("~user/x", Some("/home/u".into())), "~user/x");
    assert_eq!(resolve_with_home("~/x", None), "~/x");
    assert_eq!(resolve_with_home("/abs/x", Some("/home/u".into())), "/abs/x");
    let plain = AppConfig { install_prefix: "/opt/llama".into(), ..AppConfig::default() };
    assert_eq!(plain.resolved_prefix(), "/opt/llama");
    let odd = AppConfig { models_dir: "~user/models".into(), ..AppConfig::default() };
    assert_eq!(odd.resolved_models_dir(), "~user/models");
    let home = AppConfig { install_prefix: "~/.local".into(), ..AppConfig::default() };
    let expanded = home.resolved_prefix();
    assert_ne!(expanded, "~/.local");
    assert!(expanded.ends_with("/.local"));
    let s = AppState::default();
    assert_eq!(s.expertise, ExpertiseLevel::Intermediate);
    assert_eq!(ExpertiseLevel::all().len(), 3);
    assert_eq!(ExpertiseLevel::Expert.as_str(), "Expert");
}

#[test]
fn text_helpers() {
    assert_eq!(decimal_string(0), "0");
    assert_eq!(decimal_string(1234567890), "1234567890");
    assert_eq!(hex16(255), "00000000000000ff");
    assert_eq!(remove_char("8.6.1", '.'), "861");
    let cs: Vec<char> = "  12 ".chars().collect();
    assert_eq!(trim_chars(&cs), vec!['1', '2']);
    assert_eq!(parse_u64(&['4', '2']), Some(42));
    assert_eq!(parse_u64(&[]), None);
    assert_eq!(parse_u64(&['1', 'x']), None);
    let big: Vec<char> = "18446744073709551616".chars().collect();
    assert_eq!(parse_u64(&big), None);
    assert_eq!(parse_u32(&['7']), Some(7));
    let parts = split_on(&"a--b--".chars().collect::<Vec<_>>(), &['-', '-']);
    assert_eq!(parts.len(), 3);
    assert_eq!(join_strings(&["a".to_string(), "b".to_string()], ", "), "a, b");
}

#[test]
fn backend_descriptions() {
    assert!(backend_description(BackendName::Cuda).starts_with("NVIDIA GPU acceleration"));
    assert_eq!(BackendName::OpenBlas.as_str(), "OpenBLAS (CPU optimized)");
}

#[test]
fn application_files_live_in_a_localforge_directory() {
    assert_eq!(config_path_for(Some("/home/u/.config".into())), "/home/u/.config/localforge/config.toml");
    assert_eq!(config_path_for(None), "~/.config/localforge/config.toml");
    assert_eq!(state_path_for(Some("/data".into())), "/data/localforge/state.toml");
    assert_eq!(state_path_for(None), "~/.local/share/localforge/state.toml");
    assert_eq!(log_dir_for(Some("/data/".into())), "/data/localforge/logs");
    assert!(AppConfig::default_path().ends_with("localforge/config.toml"));
    assert!(AppState::default_path().ends_with("localforge/state.toml"));
    assert!(get_log_dir().ends_with("localforge/logs"));
}

#[test]
fn model_files_sit_under_the_local_data_directory() {
    assert_eq!(
        model_file_path_for(Some("/home/u/.local/share".into()), "Qwen2.5-7B-Instruct"),
        "/home/u/.local/share/localforge/models/Qwen2.5-7B-Instruct.gguf"
    );
    assert_eq!(model_file_path_for(None, "tiny"), "localforge/models/tiny.gguf");
}
