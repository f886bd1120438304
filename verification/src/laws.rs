//! What holds of the handler's response for every payload and every
//! context. Each law is stated over [`response`], to which the contract of
//! [`function_handler`](crate::handler::function_handler) ties every result.

use crate::handler::response;
use lambda_runtime::{Context, LambdaEvent};
use serde_json::Value;
use vstd::prelude::*;

verus! {

/// Identity: the response to an event made of a payload and any context is
/// that very payload.
pub proof fn lemma_response_is_payload(payload: Value, context: Context)
    ensures
        response(LambdaEvent { payload, context }) == payload,
{
}

/// Context independence: two events that carry the same payload get the same
/// response, whatever their contexts are.
pub proof fn lemma_response_ignores_context(payload: Value, first: Context, second: Context)
    ensures
        response(LambdaEvent { payload, context: first }) == response(
            LambdaEvent { payload, context: second },
        ),
{
}

/// Idempotence: when the response to an event is sent in again as the payload
/// of a further event, under any context, the response is the same once more.
pub proof fn lemma_response_idempotent(event: LambdaEvent<Value>, next: Context)
    ensures
        response(LambdaEvent { payload: response(event), context: next }) == response(event),
{
}

} // verus!
