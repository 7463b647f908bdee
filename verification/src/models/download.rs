//! Decisions of the model downloader: when to resume, restart or give up,
//! and how progress totals are counted.

use crate::text::{decimal, push_decimal};
use vstd::prelude::*;
use vstd::string::*;

verus! {

/// What to do with the answer to a (possibly ranged) download request.
#[derive(Debug, Clone, Copy, PartialEq, Eq, Structural)]
pub enum ResumeDecision {
    /// Append the body to the partial file.
    Continue,
    /// The server ignored the range: start the partial file over.
    Restart,
    /// The request failed.
    Fail,
}

/// Whether an HTTP status is a success (2xx).
pub open spec fn is_success(status: u16) -> bool {
    200 <= status < 300
}

/// 200 for a request that asked to resume means the server ignored the
/// range; any status other than a success or 206 is a failure.
pub open spec fn spec_resume_decision(status: u16, existing_size: u64) -> ResumeDecision {
    if status == 200 && existing_size > 0 {
        ResumeDecision::Restart
    } else if !is_success(status) && status != 206 {
        ResumeDecision::Fail
    } else {
        ResumeDecision::Continue
    }
}

pub fn resume_decision(status: u16, existing_size: u64) -> (r: ResumeDecision)
    ensures
        r == spec_resume_decision(status, existing_size),
{
    if status == 200 && existing_size > 0 {
        ResumeDecision::Restart
    } else if !(200 <= status && status < 300) && status != 206 {
        ResumeDecision::Fail
    } else {
        ResumeDecision::Continue
    }
}

/// A plain download fails on any status that is not a success.
pub fn download_ok(status: u16) -> (r: bool)
    ensures
        r == is_success(status),
{
    200 <= status && status < 300
}

/// The `Range` header that asks for the rest of a file after
/// `existing_size` bytes.
pub fn range_header(existing_size: u64) -> (r: String)
    ensures
        r@ == "bytes="@ + decimal(existing_size as nat) + "-"@,
{
    let mut s = String::from_str("bytes=");
    push_decimal(&mut s, existing_size);
    s.append("-");
    s
}

/// The `Range` header a download sends: one asking for the rest of the file
/// when `existing_size` bytes are already there, none for a fresh download.
pub fn range_request(existing_size: u64) -> (r: Option<String>)
    ensures
        existing_size == 0 ==> r is None,
        existing_size > 0 ==> (r matches Some(h) && h@ == "bytes="@ + decimal(existing_size as nat)
            + "-"@),
{
    if existing_size > 0 {
        Some(range_header(existing_size))
    } else {
        None
    }
}

/// The total reported for a download answered with `decision`.
pub open spec fn spec_resumed_total(decision: ResumeDecision, content_length: Option<u64>, existing_size: u64) -> Option<int> {
    match (decision, content_length) {
        (ResumeDecision::Continue, Some(cl)) => Some(cl + existing_size),
        (ResumeDecision::Restart, Some(cl)) => Some(cl as int),
        _ => None,
    }
}

/// The bytes counted as already downloaded for a download answered with
/// `decision`.
pub open spec fn spec_starting_offset(decision: ResumeDecision, existing_size: u64) -> u64 {
    if decision == ResumeDecision::Restart { 0 } else { existing_size }
}

/// The total size reported while downloading, when the server announced a
/// length: a continued download adds the bytes already on disk to the
/// announced length of the rest; a restarted one (the server ignored the
/// range) is exactly the announced length; a failed one reports nothing.
pub fn resumed_total(decision: ResumeDecision, content_length: Option<u64>, existing_size: u64) -> (r:
    Option<u64>)
    requires
        decision == ResumeDecision::Continue ==> (content_length matches Some(cl) ==> cl
            + existing_size <= u64::MAX),
    ensures
        decision == ResumeDecision::Restart ==> r == content_length,
        decision == ResumeDecision::Continue ==> (content_length is None ==> r is None),
        decision == ResumeDecision::Continue ==> (content_length matches Some(cl) ==> r == Some(
            (cl + existing_size) as u64,
        )),
        decision == ResumeDecision::Fail ==> r is None,
        match r {
            Some(t) => spec_resumed_total(decision, content_length, existing_size) == Some(t as int),
            None => spec_resumed_total(decision, content_length, existing_size) is None,
        },
{
    match decision {
        ResumeDecision::Continue => match content_length {
            Some(cl) => Some(cl + existing_size),
            None => None,
        },
        ResumeDecision::Restart => content_length,
        ResumeDecision::Fail => None,
    }
}

/// Bytes counted as downloaded when the body starts arriving.
pub fn starting_offset(decision: ResumeDecision, existing_size: u64) -> (r: u64)
    ensures
        decision == ResumeDecision::Restart ==> r == 0,
        decision != ResumeDecision::Restart ==> r == existing_size,
        r == spec_starting_offset(decision, existing_size),
{
    if decision == ResumeDecision::Restart {
        0
    } else {
        existing_size
    }
}

/// A server that ignores the range gets a full download: a partial file
/// answered with 200 restarts from zero and its total is the announced
/// length; a 206 answer goes on from the bytes on disk, and its total counts
/// them.
pub proof fn lemma_restart_is_full_download(status: u16, existing_size: u64, content_length: Option<u64>)
    ensures
        status == 200 && existing_size > 0 ==> {
            let d = spec_resume_decision(status, existing_size);
            &&& d == ResumeDecision::Restart
            &&& spec_starting_offset(d, existing_size) == 0
            &&& spec_resumed_total(d, content_length, existing_size) == match content_length {
                Some(cl) => Some(cl as int),
                None => None::<int>,
            }
        },
        status == 206 ==> {
            let d = spec_resume_decision(status, existing_size);
            &&& d == ResumeDecision::Continue
            &&& spec_starting_offset(d, existing_size) == existing_size
            &&& spec_resumed_total(d, content_length, existing_size) == match content_length {
                Some(cl) => Some(cl + existing_size),
                None => None::<int>,
            }
        },
{
}

} // verus!
