//! The library's error type and the retry rules applied to failed
//! operations.

use vstd::prelude::*;
use vstd::string::*;

verus! {

/// `std::io::Error`, carried unopened inside `LocalForgeError::Io`.
#[verifier::external_type_specification]
#[verifier::external_body]
pub struct ExIoError(std::io::Error);

/// Typed error types for the application
#[derive(Debug)]
pub enum LocalForgeError {
    HardwareDetection(String),
    BuildFailed(String),
    BuildDependency(String),
    DownloadFailed(String),
    ModelNotFound(String),
    InferenceError(String),
    ServerError(String),
    ConfigError(String),
    Io(std::io::Error),
    Serialization(String),
    Network(String),
    Cancelled,
    Other(String),
}

/// Result type for the application
pub type Result<T> = core::result::Result<T, LocalForgeError>;

/// The kinds of failure worth another attempt: transfers, the network, the
/// server, the file system and the build.
pub open spec fn spec_is_retryable(e: LocalForgeError) -> bool {
    match e {
        LocalForgeError::DownloadFailed(_) => true,
        LocalForgeError::Network(_) => true,
        LocalForgeError::ServerError(_) => true,
        LocalForgeError::Io(_) => true,
        LocalForgeError::BuildFailed(_) => true,
        LocalForgeError::BuildDependency(_) => true,
        _ => false,
    }
}

/// Whether an operation that failed with `error` may be retried.
pub fn is_retryable(error: &LocalForgeError) -> (r: bool)
    ensures
        r == spec_is_retryable(*error),
{
    match error {
        LocalForgeError::DownloadFailed(_) => true,
        LocalForgeError::Network(_) => true,
        LocalForgeError::ServerError(_) => true,
        LocalForgeError::Io(_) => true,
        LocalForgeError::BuildFailed(_) => true,
        LocalForgeError::BuildDependency(_) => true,
        _ => false,
    }
}

/// What to do after attempt number `attempt` (0-based) failed.
#[derive(Debug, Clone, Copy, PartialEq, Eq, Structural)]
pub enum RetryStep {
    /// The error is not retryable: return it now.
    Fail,
    /// Sleep for the backoff of the given attempt number, then try again.
    BackoffThenRetry(u32),
    /// That was the last allowed attempt: give up with this error.
    Exhausted,
}

pub open spec fn spec_retry_step(max_attempts: u32, attempt: u32, retryable: bool) -> RetryStep {
    if !retryable {
        RetryStep::Fail
    } else if attempt + 1 < max_attempts {
        RetryStep::BackoffThenRetry((attempt + 1) as u32)
    } else {
        RetryStep::Exhausted
    }
}

/// Decide how a retry loop with `max_attempts` attempts goes on after
/// attempt `attempt` failed with an error that is (or is not) retryable.
pub fn retry_step(max_attempts: u32, attempt: u32, retryable: bool) -> (r: RetryStep)
    requires
        attempt < max_attempts,
    ensures
        r == spec_retry_step(max_attempts, attempt, retryable),
{
    if !retryable {
        RetryStep::Fail
    } else if attempt + 1 < max_attempts {
        RetryStep::BackoffThenRetry(attempt + 1)
    } else {
        RetryStep::Exhausted
    }
}

/// A retry loop never schedules more than `max_attempts` attempts: every
/// retry it schedules has a number below `max_attempts`, one above the
/// failed attempt.
pub proof fn lemma_retry_bounded(max_attempts: u32, attempt: u32, retryable: bool)
    requires
        attempt < max_attempts,
    ensures
        spec_retry_step(max_attempts, attempt, retryable) matches RetryStep::BackoffThenRetry(n)
            ==> n == attempt + 1 && n < max_attempts,
        attempt + 1 == max_attempts && retryable ==> spec_retry_step(max_attempts, attempt, retryable)
            == RetryStep::Exhausted,
{
}

/// The error a retry loop reports once every attempt is used up: the last
/// error seen, or a generic one when no attempt was made.
pub fn exhausted_error(last: Option<LocalForgeError>) -> (r: LocalForgeError)
    ensures
        last is Some ==> r == last->0,
        last is None ==> (r matches LocalForgeError::Other(m) && m@
            == "Operation failed after all retries"@),
{
    match last {
        Some(e) => e,
        None => LocalForgeError::Other(String::from_str("Operation failed after all retries")),
    }
}

} // verus!
