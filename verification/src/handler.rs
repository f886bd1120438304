//! The handler itself: one invocation in, its payload out.

use core::convert::Infallible;
use lambda_runtime::LambdaEvent;
use serde_json::Value;
use vstd::prelude::*;

verus! {

/// What the handler can fail with: nothing. The type has no value, so a
/// result of the handler is always `Ok`.
pub type HandlerError = Infallible;

/// The response that an invocation is owed: the payload of its event. The
/// context of the event plays no part in it.
pub open spec fn response(event: LambdaEvent<Value>) -> Value {
    event.payload
}

/// Handles one invocation by echoing the event's payload.
///
/// The event is split into payload and context; the context is dropped unread
/// and the payload is handed back as it came: no field added, removed or
/// reordered, no number or string converted. The call always succeeds.
pub fn function_handler(event: LambdaEvent<Value>) -> (result: Result<Value, HandlerError>)
    ensures
        result == Ok::<Value, HandlerError>(response(event)),
{
    let (payload, _context) = event.into_parts();
    Ok(payload)
}

} // verus!
