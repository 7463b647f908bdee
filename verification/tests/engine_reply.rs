use localforge::error::LocalForgeError;
use localforge::inference::engine::{
    not_ready_error, readiness_step, reply_from_body, InferenceEngineType, ReadinessStep,
};

#[test]
fn reply_text_is_read_from_the_first_choice() {
    let body = r#"{"choices":[{"message":{"role":"assistant","content":"Hello there"}},{"message":{"content":"other"}}]}"#;
    assert_eq!(reply_from_body(InferenceEngineType::LlamaCpp, body).unwrap(), "Hello there");
    assert_eq!(reply_from_body(InferenceEngineType::LlamaSwap, body).unwrap(), "Hello there");
}

#[test]
fn reply_without_text_is_empty() {
    let none = r#"{"choices":[]}"#;
    assert_eq!(reply_from_body(InferenceEngineType::LlamaCpp, none).unwrap(), "");
    let number = r#"{"choices":[{"message":{"content":42}}]}"#;
    assert_eq!(reply_from_body(InferenceEngineType::LlamaSwap, number).unwrap(), "");
}

#[test]
fn reply_that_is_not_json_is_an_inference_error() {
    match reply_from_body(InferenceEngineType::LlamaCpp, "not json") {
        Err(LocalForgeError::InferenceError(m)) => assert!(m.starts_with("Failed to parse response: ")),
        other => panic!("unexpected {:?}", other),
    }
    match reply_from_body(InferenceEngineType::LlamaSwap, "{") {
        Err(LocalForgeError::InferenceError(m)) => {
            assert!(m.starts_with("Parse failed: "));
            assert!(m.len() > "Parse failed: ".len());
        }
        other => panic!("unexpected {:?}", other),
    }
}

#[test]
fn readiness_checks_for_thirty_seconds() {
    assert_eq!(readiness_step(1, true), ReadinessStep::Ready);
    assert_eq!(readiness_step(60, true), ReadinessStep::Ready);
    assert_eq!(readiness_step(1, false), ReadinessStep::Retry { wait_ms: 500 });
    assert_eq!(readiness_step(59, false), ReadinessStep::Retry { wait_ms: 500 });
    assert_eq!(readiness_step(60, false), ReadinessStep::GiveUp { wait_ms: 500 });
    // sixty failed checks, half a second each
    let mut waited = 0u64;
    let mut checks = 0u32;
    loop {
        checks += 1;
        match readiness_step(checks, false) {
            ReadinessStep::Retry { wait_ms } => waited += wait_ms,
            ReadinessStep::GiveUp { wait_ms } => {
                waited += wait_ms;
                break;
            }
            ReadinessStep::Ready => unreachable!(),
        }
    }
    assert_eq!(checks, 60);
    assert_eq!(waited, 30_000);
}

#[test]
fn engines_that_never_start_say_so() {
    match not_ready_error(InferenceEngineType::LlamaCpp) {
        LocalForgeError::InferenceError(m) => assert_eq!(m, "llama-server failed to become ready within 30s"),
        other => panic!("unexpected {:?}", other),
    }
    match not_ready_error(InferenceEngineType::LlamaSwap) {
        LocalForgeError::InferenceError(m) => assert_eq!(m, "llama-swap failed to become ready within 30s"),
        other => panic!("unexpected {:?}", other),
    }
}
