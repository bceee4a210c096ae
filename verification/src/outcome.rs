//! The two-shape result contract that crosses the call boundary, and the
//! encoder that produces it from internal outcomes.

use vstd::prelude::*;

verus! {

/// The tagged result that crosses the call boundary: either a success
/// carrying a text payload or a failure carrying a human-readable message.
pub enum BoundaryResult {
    Success(String),
    Failure(String),
}

/// The outcome of running a script in an engine instance: either the textual
/// rendering of the script's resulting value, or a rendering of the fault
/// (compile error, thrown value, or non-coercible result) that ended the run.
pub enum ExecutionOutcome {
    Value(String),
    Fault(String),
}

/// Wraps an internal success/failure outcome into the two-shape boundary
/// contract. Success payloads and failure messages pass through verbatim; no
/// decision is made here.
pub fn encode_outcome(outcome: Result<String, String>) -> (r: BoundaryResult)
    ensures
        r is Success <==> outcome is Ok,
        r is Success ==> r->Success_0 == outcome->Ok_0,
        r is Failure ==> r->Failure_0 == outcome->Err_0,
{
    match outcome {
        Ok(payload) => BoundaryResult::Success(payload),
        Err(message) => BoundaryResult::Failure(message),
    }
}

/// Encodes the outcome of one engine run for the boundary. A fault is
/// reported as a failure result in the same shape the parse path uses; it is
/// never allowed to escape as a process-level abort.
pub fn encode_execution(outcome: ExecutionOutcome) -> (r: BoundaryResult)
    ensures
        r is Success <==> outcome is Value,
        outcome is Value ==> r->Success_0 == outcome->Value_0,
        outcome is Fault ==> r->Failure_0 == outcome->Fault_0,
{
    match outcome {
        ExecutionOutcome::Value(text) => BoundaryResult::Success(text),
        ExecutionOutcome::Fault(message) => BoundaryResult::Failure(message),
    }
}

} // verus!
