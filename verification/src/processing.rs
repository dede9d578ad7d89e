//! The background worker's arithmetic and the status codes handed
//! across the foreign-function boundary.
//!
//! A single worker thread drains a queue of arithmetic requests and
//! answers each with a checked 32-bit result. The computation and the
//! classification of outcomes live here; the thread, the channels and
//! the raw-pointer boundary are the shell's.

use vstd::prelude::*;

verus! {

/// Status codes reported across the foreign-function boundary.
#[derive(Clone, Copy, Debug, PartialEq, Eq, Structural)]
pub enum ProcessingStatus {
    /// The call succeeded.
    Success,
    /// Reserved for deadline-bound calls.
    Timeout,
    /// The arithmetic overflowed 32 bits.
    Overflow,
    /// The worker's queue would not take the request.
    EnqueFailed,
    /// Polling the worker failed.
    OtherError,
}

/// One request for the worker.
pub enum Processing {
    Add { left: i32, right: i32 },
    Sub { left: i32, right: i32 },
}

/// One finished computation.
#[derive(Clone, Copy, Debug, PartialEq, Eq, Structural)]
pub enum ProcessingSuccess {
    Add(i32),
    Sub(i32),
}

/// Why a computation failed.
#[derive(Clone, Copy, Debug, PartialEq, Eq, Structural)]
pub enum ProcessingError {
    Overflow,
}

/// The worker's answer to one request.
pub type ProcessingResult = Result<ProcessingSuccess, ProcessingError>;

/// Why a poll of the worker's results returned nothing.
#[derive(Clone, Copy, Debug, PartialEq, Eq, Structural)]
pub enum PollError {
    /// No result arrived within the deadline.
    Timeout,
    /// The worker is gone.
    Disconnected,
}

/// Computes one request: checked 32-bit addition or subtraction,
/// answering `Overflow` exactly when the mathematical result does not
/// fit in an `i32`.
pub fn process_request(p: &Processing) -> (r: ProcessingResult)
    ensures
        *p matches Processing::Add { left, right } ==> ({
            &&& i32::MIN <= left + right <= i32::MAX ==> (r matches Ok(ProcessingSuccess::Add(v))
                && v == left + right)
            &&& !(i32::MIN <= left + right <= i32::MAX) ==> (r matches Err(e) && e is Overflow)
        }),
        *p matches Processing::Sub { left, right } ==> ({
            &&& i32::MIN <= left - right <= i32::MAX ==> (r matches Ok(ProcessingSuccess::Sub(v))
                && v == left - right)
            &&& !(i32::MIN <= left - right <= i32::MAX) ==> (r matches Err(e) && e is Overflow)
        }),
{
    match p {
        Processing::Add { left, right } => match left.checked_add(*right) {
            Some(v) => Ok(ProcessingSuccess::Add(v)),
            None => Err(ProcessingError::Overflow),
        },
        Processing::Sub { left, right } => match left.checked_sub(*right) {
            Some(v) => Ok(ProcessingSuccess::Sub(v)),
            None => Err(ProcessingError::Overflow),
        },
    }
}

/// Status for the attempt to hand a request to the worker: accepted
/// requests report `Success`, a refused hand-off reports `EnqueFailed`.
pub fn classify_enqueue(accepted: bool) -> (r: ProcessingStatus)
    ensures
        accepted ==> r is Success,
        !accepted ==> r is EnqueFailed,
{
    if accepted {
        ProcessingStatus::Success
    } else {
        ProcessingStatus::EnqueFailed
    }
}

/// Maps what one poll of the worker returned to the status code and
/// value handed across the foreign boundary: any successful value is
/// `Ok` with that value, an overflowed computation is `Overflow`, and
/// a failed poll — deadline or a gone worker alike — is `OtherError`.
pub fn classify_poll_result(poll: Result<ProcessingResult, PollError>) -> (r: (
    ProcessingStatus,
    Option<i32>,
))
    ensures
        poll matches Ok(res) ==> ({
            &&& res matches Ok(ProcessingSuccess::Add(v)) ==> r.0 is Success && r.1 == Some(v)
            &&& res matches Ok(ProcessingSuccess::Sub(v)) ==> r.0 is Success && r.1 == Some(v)
            &&& res is Err ==> r.0 is Overflow && r.1 is None
        }),
        poll is Err ==> r.0 is OtherError && r.1 is None,
{
    match poll {
        Ok(Ok(ProcessingSuccess::Add(v))) => (ProcessingStatus::Success, Some(v)),
        Ok(Ok(ProcessingSuccess::Sub(v))) => (ProcessingStatus::Success, Some(v)),
        Ok(Err(ProcessingError::Overflow)) => (ProcessingStatus::Overflow, None),
        Err(_) => (ProcessingStatus::OtherError, None),
    }
}

} // verus!
