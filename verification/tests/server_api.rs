use localforge::server::api::{
    authorize, chat_completion, completion_model, default_max_tokens, generate_id,
    health_response, models_response, ApiState,
};
use localforge::server::config::{ApiKey, ServerConfig};

fn keyed() -> ServerConfig {
    let mut c = ServerConfig::default();
    c.api_keys.push(ApiKey { name: "ci".into(), key: "secret-1".into() });
    c.api_keys.push(ApiKey { name: "dev".into(), key: "secret-2".into() });
    c
}

#[test]
fn no_keys_lets_everyone_in() {
    assert!(authorize(&[], None));
    assert!(authorize(&[], Some("garbage")));
}

#[test]
fn bearer_token_must_match_a_key() {
    let c = keyed();
    assert!(authorize(&c.api_keys, Some("Bearer secret-2")));
    assert!(!authorize(&c.api_keys, Some("Bearer secret-3")));
    assert!(!authorize(&c.api_keys, Some("secret-1")));
    assert!(!authorize(&c.api_keys, Some("bearer secret-1")));
    assert!(!authorize(&c.api_keys, None));
}

#[test]
fn refused_request_gets_401() {
    let state = ApiState::new(keyed());
    let e = chat_completion(&state, Some("Bearer nope"), None, 1).unwrap_err();
    assert_eq!(e.status, 401);
    assert_eq!(e.message, "Invalid API key");
}

#[test]
fn placeholder_completion_shape() {
    let mut state = ApiState::new(keyed());
    state.loaded_model = Some("qwen".into());
    let r = chat_completion(&state, Some("Bearer secret-1"), None, 1_700_000_000).unwrap();
    assert!(r.id.starts_with("chatcmpl-"));
    assert_eq!(r.id.len(), "chatcmpl-".len() + 16);
    assert!(r.id["chatcmpl-".len()..].chars().all(|c| c.is_ascii_hexdigit() && !c.is_ascii_uppercase()));
    assert_eq!(r.object, "chat.completion");
    assert_eq!(r.created, 1_700_000_000);
    assert_eq!(r.model, "qwen");
    assert_eq!(r.choices.len(), 1);
    assert_eq!(r.choices[0].message.role, "assistant");
    assert_eq!(r.choices[0].finish_reason, "stop");
    assert_eq!(r.usage.total_tokens, 0);
    let r2 = chat_completion(&state, Some("Bearer secret-1"), Some("llama".into()), 0).unwrap();
    assert_eq!(r2.model, "llama");
}

#[test]
fn completion_model_falls_back() {
    assert_eq!(completion_model(Some("a".into()), &Some("b".into())), "a");
    assert_eq!(completion_model(None, &Some("b".into())), "b");
    assert_eq!(completion_model(None, &None), "unknown");
}

#[test]
fn ids_are_sixteen_hex_digits() {
    let id = generate_id();
    assert_eq!(id.len(), 16);
    assert!(id.chars().all(|c| c.is_ascii_hexdigit()));
}

#[test]
fn health_and_models() {
    let h = health_response("0.1.0");
    assert_eq!(h.status, "ok");
    assert_eq!(h.version, "0.1.0");
    let m = models_response(&Some("qwen".into()));
    assert_eq!(m.object, "list");
    assert_eq!(m.data.len(), 1);
    assert_eq!(m.data[0].id, "qwen");
    assert_eq!(m.data[0].owned_by, "localforge");
    assert!(models_response(&None).data.is_empty());
    assert_eq!(default_max_tokens(), 2048);
}
