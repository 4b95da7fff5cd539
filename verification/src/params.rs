//! Decision logic of the parameter-store lookup.
//!
//! A single named value (an API key, a token) is kept by a key-value service
//! reached over HTTP. The envelope decoding and the call itself are the
//! transport layer's work; this module decides what the call's outcome
//! means: the value on a decoded success, one generic service error on
//! everything else. That error set is deliberately distinct from the
//! book-provider taxonomy.

use vstd::prelude::*;

use crate::outcome::{CallOutcome, CallOutcomeView};

verus! {

/// The decoded payload of a parameter lookup: the single string value held
/// inside the service's response envelope.
#[derive(Debug)]
pub struct ParameterPayload {
    pub value: String,
}

/// Mathematical image of a [`ParameterPayload`].
#[verifier::ext_equal]
pub struct ParameterPayloadView {
    pub value: Seq<char>,
}

impl View for ParameterPayload {
    type V = ParameterPayloadView;

    open spec fn view(&self) -> ParameterPayloadView {
        ParameterPayloadView { value: self.value@ }
    }
}

/// A failure of the parameter service.
///
/// Every transport failure, non-success status and undecodable body maps to
/// the one generic kind: a caller can do nothing finer with a missing
/// credential than report it.
#[derive(Debug, PartialEq)]
pub enum ResponseError {
    ServiceError,
}

/// Image of a parameter lookup result.
pub open spec fn param_result_view(r: Result<String, ResponseError>) -> Result<
    Seq<char>,
    ResponseError,
> {
    match r {
        Result::Ok(value) => Result::Ok(value@),
        Result::Err(err) => Result::Err(err),
    }
}

/// The whole parameter lookup as a function of the call's outcome: the
/// envelope's value on a decoded success, the generic service error on
/// anything else.
pub open spec fn spec_parameter_value(o: CallOutcomeView<ParameterPayloadView>) -> Result<
    Seq<char>,
    ResponseError,
> {
    match o {
        CallOutcomeView::Success(payload) => Result::Ok(payload.value),
        _ => Result::Err(ResponseError::ServiceError),
    }
}

/// Evaluates a parameter lookup from the outcome of its one request.
pub fn parameter_value(outcome: CallOutcome<ParameterPayload>) -> (r: Result<
    String,
    ResponseError,
>)
    ensures
        param_result_view(r) == spec_parameter_value(outcome@),
{
    match outcome {
        CallOutcome::Success(payload) => Result::Ok(payload.value),
        CallOutcome::Transport(_) => Result::Err(ResponseError::ServiceError),
        CallOutcome::Failure(_, _) => Result::Err(ResponseError::ServiceError),
        CallOutcome::Malformed(_) => Result::Err(ResponseError::ServiceError),
    }
}

} // verus!
