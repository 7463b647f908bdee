//! Request handling rules of the OpenAI-compatible API: authentication,
//! model naming and the shape of responses.

use super::config::{ApiKey, ServerConfig};
use crate::text::{chars_of, chars_start_with, hex16, hex_fixed, opt_view, starts_with};
use vstd::prelude::*;
use vstd::string::*;

verus! {

// ── Shared application state for the API ──

pub struct ApiState {
    pub config: ServerConfig,
    pub loaded_model: Option<String>,
}

impl ApiState {
    pub fn new(config: ServerConfig) -> (r: Self)
        ensures
            r.config == config,
            r.loaded_model is None,
    {
        ApiState { config, loaded_model: None }
    }
}

// ── Request / Response types (OpenAI-compatible) ──

/// Default completion length when a request names none.
pub fn default_max_tokens() -> (r: u32)
    ensures
        r == 2048,
{
    2048
}

#[derive(Debug, Clone)]
pub struct ChatMessageReq {
    pub role: String,
    pub content: String,
}

#[derive(Debug)]
pub struct ChatCompletionResponse {
    pub id: String,
    pub object: String,
    pub created: u64,
    pub model: String,
    pub choices: Vec<Choice>,
    pub usage: Usage,
}

#[derive(Debug)]
pub struct Choice {
    pub index: u32,
    pub message: ChatMessageReq,
    pub finish_reason: String,
}

#[derive(Debug, Clone, Copy)]
pub struct Usage {
    pub prompt_tokens: u32,
    pub completion_tokens: u32,
    pub total_tokens: u32,
}

#[derive(Debug)]
pub struct ModelInfo {
    pub id: String,
    pub object: String,
    pub owned_by: String,
}

#[derive(Debug)]
pub struct ModelsResponse {
    pub object: String,
    pub data: Vec<ModelInfo>,
}

#[derive(Debug)]
pub struct HealthResponse {
    pub status: String,
    pub version: String,
}

/// A refused request: the HTTP status and the message sent back.
#[derive(Debug)]
pub struct ApiError {
    pub status: u16,
    pub message: String,
}

// ── Route logic ──

/// Body of `GET /health`.
pub fn health_response(version: &str) -> (r: HealthResponse)
    ensures
        r.status@ == "ok"@,
        r.version@ == version@,
{
    HealthResponse { status: String::from_str("ok"), version: String::from_str(version) }
}

/// Body of `GET /v1/models`: the loaded model, if any.
pub fn models_response(loaded_model: &Option<String>) -> (r: ModelsResponse)
    ensures
        r.object@ == "list"@,
        loaded_model is None ==> r.data@.len() == 0,
        loaded_model matches Some(m) ==> {
            &&& r.data@.len() == 1
            &&& r.data@[0].id@ == m@
            &&& r.data@[0].object@ == "model"@
            &&& r.data@[0].owned_by@ == "localforge"@
        },
{
    let mut models: Vec<ModelInfo> = Vec::new();
    if let Some(model) = loaded_model {
        models.push(
            ModelInfo {
                id: model.clone(),
                object: String::from_str("model"),
                owned_by: String::from_str("localforge"),
            },
        );
    }
    ModelsResponse { object: String::from_str("list"), data: models }
}

/// The token of an `Authorization` header: what follows `Bearer `, or
/// nothing when the header is missing or has another form.
pub open spec fn bearer_token(authorization: Option<Seq<char>>) -> Seq<char> {
    match authorization {
        Some(h) => if starts_with(h, "Bearer "@) {
            h.skip(7)
        } else {
            seq![]
        },
        None => seq![],
    }
}

/// A request is let through when no keys are configured, or when its
/// bearer token equals one of them.
pub open spec fn spec_authorized(keys: Seq<ApiKey>, authorization: Option<Seq<char>>) -> bool {
    keys.len() == 0 || exists|i: int|
        0 <= i < keys.len() && keys[i].key@ == bearer_token(authorization)
}

/// Whether a request with this `Authorization` header (its visible-ASCII
/// text, if any) may use the API.
pub fn authorize(keys: &[ApiKey], authorization: Option<&str>) -> (r: bool)
    ensures
        r == spec_authorized(
            keys@,
            match authorization {
                Some(h) => Some(h@),
                None => None,
            },
        ),
{
    if keys.len() == 0 {
        return true;
    }
    let ghost auth = match authorization {
        Some(h) => Some(h@),
        None => None,
    };
    let mut token = String::new();
    if let Some(h) = authorization {
        let hc = chars_of(h);
        let prefix = chars_of("Bearer ");
        proof {
            reveal_strlit("Bearer ");
        }
        if chars_start_with(hc.as_slice(), prefix.as_slice()) {
            let mut k: usize = 7;
            while k < hc.len()
                invariant
                    7 <= k <= hc@.len(),
                    token@ =~= hc@.subrange(7, k as int),
                decreases hc.len() - k,
            {
                token.push(hc[k]);
                k = k + 1;
            }
            assert(token@ =~= h@.skip(7));
        } else {
            assert(token@ =~= Seq::<char>::empty());
        }
    } else {
        assert(token@ =~= Seq::<char>::empty());
    }
    assert(token@ == bearer_token(auth));
    let mut i: usize = 0;
    while i < keys.len()
        invariant
            i <= keys@.len(),
            token@ == bearer_token(auth),
            auth == match authorization {
                Some(h) => Some(h@),
                None => None,
            },
            keys@.len() > 0,
            forall|j: int| 0 <= j < i ==> keys@[j].key@ != token@,
        decreases keys.len() - i,
    {
        if keys[i].key == token {
            assert(keys@[i as int].key@ == bearer_token(auth));
            return true;
        }
        i = i + 1;
    }
    false
}

/// The model a completion is reported for: the one requested, else the
/// loaded one, else `unknown`.
pub open spec fn spec_completion_model(requested: Option<Seq<char>>, loaded: Option<Seq<char>>) -> Seq<
    char,
> {
    match requested {
        Some(m) => m,
        None => match loaded {
            Some(m) => m,
            None => "unknown"@,
        },
    }
}

pub fn completion_model(requested: Option<String>, loaded_model: &Option<String>) -> (r: String)
    ensures
        r@ == spec_completion_model(opt_view(requested), opt_view(*loaded_model)),
{
    match requested {
        Some(m) => m,
        None => match loaded_model {
            Some(m) => m.clone(),
            None => String::from_str("unknown"),
        },
    }
}

/// A uniformly random `u64` (`rand::thread_rng`); nothing is stated of
/// which value comes back.
#[verifier::external_body]
fn random_u64() -> (r: u64) {
    rand::Rng::gen::<u64>(&mut rand::thread_rng())
}

/// A random response id: sixteen lower-case hexadecimal digits.
pub fn generate_id() -> (r: String)
    ensures
        r@.len() == 16,
        exists|n: nat| r@ == hex_fixed(n, 16),
{
    let n = random_u64();
    hex16(n)
}

/// `r` is the placeholder completion of `model`: one assistant message, no
/// tokens counted, and an id made of `chatcmpl-` and sixteen hex digits.
pub open spec fn is_placeholder_completion(
    r: ChatCompletionResponse,
    model: Seq<char>,
    created: u64,
) -> bool {
    &&& exists|n: nat| r.id@ == "chatcmpl-"@ + hex_fixed(n, 16)
    &&& r.object@ == "chat.completion"@
    &&& r.created == created
    &&& r.model@ == model
    &&& r.choices@.len() == 1
    &&& r.choices@[0].index == 0
    &&& r.choices@[0].message.role@ == "assistant"@
    &&& r.choices@[0].message.content@ == "(LocalForge API: inference engine not yet connected)"@
    &&& r.choices@[0].finish_reason@ == "stop"@
    &&& r.usage.prompt_tokens == 0
    &&& r.usage.completion_tokens == 0
    &&& r.usage.total_tokens == 0
}

/// `POST /v1/chat/completions`: refuse an unauthorized request with 401,
/// otherwise answer with the placeholder completion. `created` is the
/// current UNIX time in seconds.
pub fn chat_completion(
    state: &ApiState,
    authorization: Option<&str>,
    requested_model: Option<String>,
    created: u64,
) -> (r: core::result::Result<ChatCompletionResponse, ApiError>)
    ensures
        !spec_authorized(
            state.config.api_keys@,
            match authorization {
                Some(h) => Some(h@),
                None => None,
            },
        ) ==> (r matches Err(e) && e.status == 401 && e.message@ == "Invalid API key"@),
        spec_authorized(
            state.config.api_keys@,
            match authorization {
                Some(h) => Some(h@),
                None => None,
            },
        ) ==> (r matches Ok(resp) && is_placeholder_completion(
            resp,
            spec_completion_model(opt_view(requested_model), opt_view(state.loaded_model)),
            created,
        )),
{
    if !authorize(state.config.api_keys.as_slice(), authorization) {
        return Err(ApiError { status: 401, message: String::from_str("Invalid API key") });
    }
    let model = completion_model(requested_model, &state.loaded_model);
    let mut id = String::from_str("chatcmpl-");
    let hex = generate_id();
    id.append(hex.as_str());
    let mut choices: Vec<Choice> = Vec::new();
    choices.push(
        Choice {
            index: 0,
            message: ChatMessageReq {
                role: String::from_str("assistant"),
                content: String::from_str("(LocalForge API: inference engine not yet connected)"),
            },
            finish_reason: String::from_str("stop"),
        },
    );
    Ok(
        ChatCompletionResponse {
            id,
            object: String::from_str("chat.completion"),
            created,
            model,
            choices,
            usage: Usage { prompt_tokens: 0, completion_tokens: 0, total_tokens: 0 },
        },
    )
}

/// Every configured key, presented as `Bearer <key>`, is accepted; with no
/// keys configured every request is.
pub proof fn lemma_configured_key_accepted(keys: Seq<ApiKey>, i: int, header: Option<Seq<char>>)
    requires
        0 <= i < keys.len() || keys.len() == 0,
    ensures
        keys.len() == 0 ==> spec_authorized(keys, header),
        keys.len() > 0 ==> spec_authorized(keys, Some("Bearer "@ + keys[i].key@)),
{
    if keys.len() > 0 {
        reveal_strlit("Bearer ");
        let h = "Bearer "@ + keys[i].key@;
        assert(h.subrange(0, 7) =~= "Bearer "@);
        assert(h.skip(7) =~= keys[i].key@);
        assert(bearer_token(Some(h)) == keys[i].key@);
    }
}

} // verus!
