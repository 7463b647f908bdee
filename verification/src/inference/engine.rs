//! The kinds of inference engine the application can drive, and the reading
//! of their OpenAI-compatible chat answers.

use crate::error::LocalForgeError;
use crate::text::opt_view;
use vstd::prelude::*;
use vstd::string::*;

verus! {

#[derive(Debug, Clone, Copy, PartialEq, Eq, Structural)]
pub enum InferenceEngineType {
    LlamaCpp,
    LlamaSwap,
}

/// The assistant's reply in a chat-completion answer as the JSON parser
/// reads it: `choices[0].message.content` when that is text (`None` when it
/// is missing or not text), or the parser's message when the body is not
/// JSON.
pub uninterp spec fn reply_content_of(body: Seq<char>) -> core::result::Result<Option<Seq<char>>, Seq<char>>;

/// The reply text of a chat-completion answer (`serde_json::from_str` into a
/// `serde_json::Value`, then `choices[0].message.content` as text), or the
/// parser's error message.
#[verifier::external_body]
fn parse_reply_content(body: &str) -> (r: core::result::Result<Option<String>, String>)
    ensures
        match r {
            Ok(c) => reply_content_of(body@) == Ok::<Option<Seq<char>>, Seq<char>>(opt_view(c)),
            Err(m) => reply_content_of(body@) == Err::<Option<Seq<char>>, Seq<char>>(m@),
        },
{
    let parsed: serde_json::Value = serde_json::from_str(body).map_err(|e| e.to_string())?;
    Ok(parsed["choices"][0]["message"]["content"].as_str().map(|c| c.to_string()))
}

/// The words an engine puts before the parser's message when its answer
/// cannot be read.
pub open spec fn parse_failure_prefix(engine: InferenceEngineType) -> Seq<char> {
    match engine {
        InferenceEngineType::LlamaCpp => "Failed to parse response: "@,
        InferenceEngineType::LlamaSwap => "Parse failed: "@,
    }
}

/// The assistant's reply in an engine's chat-completion answer: the reply
/// text, empty when the answer holds none; an inference error carrying the
/// parser's message when the body is not JSON.
pub fn reply_from_body(engine: InferenceEngineType, body: &str) -> (r: core::result::Result<
    String,
    LocalForgeError,
>)
    ensures
        match reply_content_of(body@) {
            Ok(Some(c)) => r matches Ok(s) && s@ == c,
            Ok(None) => r matches Ok(s) && s@ == Seq::<char>::empty(),
            Err(m) => r matches Err(LocalForgeError::InferenceError(e)) && e@ == parse_failure_prefix(
                engine,
            ) + m,
        },
{
    match parse_reply_content(body) {
        Ok(Some(c)) => Ok(c),
        Ok(None) => {
            let s = String::new();
            Ok(s)
        },
        Err(m) => {
            let mut e = match engine {
                InferenceEngineType::LlamaCpp => String::from_str("Failed to parse response: "),
                InferenceEngineType::LlamaSwap => String::from_str("Parse failed: "),
            };
            proof {
                reveal_strlit("Failed to parse response: ");
                reveal_strlit("Parse failed: ");
            }
            e.append(m.as_str());
            Err(LocalForgeError::InferenceError(e))
        },
    }
}


/// How many health checks an engine gets to become ready.
pub const READINESS_CHECKS: u32 = 60;

/// How long to wait after a failed health check, in milliseconds.
pub const READINESS_WAIT_MS: u64 = 500;

/// What to do after a health check of a starting engine.
#[derive(Debug, Clone, Copy, PartialEq, Eq, Structural)]
pub enum ReadinessStep {
    /// The engine answered: it is ready.
    Ready,
    /// Wait this long, then check again.
    Retry { wait_ms: u64 },
    /// Wait this long, then report that the engine never became ready.
    GiveUp { wait_ms: u64 },
}

/// The step after health check number `checks_done` (counting from one):
/// ready when it succeeded; after a failure, wait half a second and check
/// again, up to sixty checks in all, then give up.
pub fn readiness_step(checks_done: u32, healthy: bool) -> (r: ReadinessStep)
    ensures
        healthy ==> r == ReadinessStep::Ready,
        !healthy && checks_done < READINESS_CHECKS ==> r == (ReadinessStep::Retry {
            wait_ms: READINESS_WAIT_MS,
        }),
        !healthy && checks_done >= READINESS_CHECKS ==> r == (ReadinessStep::GiveUp {
            wait_ms: READINESS_WAIT_MS,
        }),
{
    if healthy {
        ReadinessStep::Ready
    } else if checks_done < READINESS_CHECKS {
        ReadinessStep::Retry { wait_ms: READINESS_WAIT_MS }
    } else {
        ReadinessStep::GiveUp { wait_ms: READINESS_WAIT_MS }
    }
}

/// The error of an engine that never became ready.
pub fn not_ready_error(engine: InferenceEngineType) -> (r: LocalForgeError)
    ensures
        r matches LocalForgeError::InferenceError(m) && m@ == match engine {
            InferenceEngineType::LlamaCpp => "llama-server failed to become ready within 30s"@,
            InferenceEngineType::LlamaSwap => "llama-swap failed to become ready within 30s"@,
        },
{
    match engine {
        InferenceEngineType::LlamaCpp => LocalForgeError::InferenceError(
            String::from_str("llama-server failed to become ready within 30s"),
        ),
        InferenceEngineType::LlamaSwap => LocalForgeError::InferenceError(
            String::from_str("llama-swap failed to become ready within 30s"),
        ),
    }
}

} // verus!
