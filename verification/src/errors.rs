//! The checked error taxonomy this core surfaces, and the three-way outcome
//! of evaluating a function body.
//!
//! Early return is an explicit outcome variant, not an error smuggled
//! through the failure channel: it is consumed only at the function-call
//! boundary, where it becomes the call's successful result.

use vstd::prelude::*;

use crate::types::TypeSignature;
use crate::types::Value;

verus! {

/// A checked, recoverable-by-caller failure of a call or a conformance
/// check. Every variant aborts only the enclosing call and propagates as a
/// typed result to the immediate caller.
#[derive(PartialEq, Eq, Debug)]
pub enum Error {
    /// The caller supplied the wrong number of arguments: (expected, actual).
    IncorrectArgumentCount(usize, usize),
    /// A non-trait-typed argument's value is not admitted by its declared
    /// type: (declared type, offending value).
    TypeValueError(TypeSignature, Value),
    /// The same parameter name was bound twice within one call.
    NameAlreadyUsed(String),
    /// A claimed trait implementation's signature does not match the trait's
    /// declaration: (trait name, function name).
    BadTraitImplementation(String, String),
    /// A failure raised by a collaborator (the evaluator or the transactional
    /// environment) and propagated unchanged.
    Runtime(String),
}

/// What evaluating a function body produced: an ordinary value, the
/// distinguished early-return signal carrying a value, or a failure.
#[derive(PartialEq, Eq, Debug)]
pub enum EvalOutcome {
    Value(Value),
    EarlyReturn(Value),
    Failure(Error),
}

/// The call result an evaluation outcome becomes at the function-call
/// boundary: an early return is a success, any failure propagates unchanged.
pub open spec fn spec_call_result(outcome: EvalOutcome) -> Result<Value, Error> {
    match outcome {
        EvalOutcome::Value(v) => Ok(v),
        EvalOutcome::EarlyReturn(v) => Ok(v),
        EvalOutcome::Failure(e) => Err(e),
    }
}

impl EvalOutcome {
    /// Consumes this outcome at the function-call boundary: an ordinary value
    /// and an early return are both the call's successful result; any other
    /// failure propagates unchanged.
    pub fn into_call_result(self) -> (r: Result<Value, Error>)
        ensures
            r == spec_call_result(self),
    {
        match self {
            EvalOutcome::Value(v) => Ok(v),
            EvalOutcome::EarlyReturn(v) => Ok(v),
            EvalOutcome::Failure(e) => Err(e),
        }
    }
}

} // verus!
