//! The invocation event as the hosting runtime delivers it: a JSON payload
//! together with the metadata of the invocation.
//!
//! Both types come from outside this crate. The JSON value and the context
//! are carried through without a look inside; of the event only its two
//! public fields are used.

use lambda_runtime::{Context, LambdaEvent};
use vstd::prelude::*;

verus! {

/// `serde_json::Value`, a JSON tree. Nothing is claimed of what it holds:
/// a value of it is moved, never read.
#[verifier::external_type_specification]
#[verifier::external_body]
pub struct ExValue(serde_json::Value);

/// `lambda_runtime::Context`, the metadata of one invocation (request id,
/// deadline, function identity). Nothing is claimed of what it holds.
#[verifier::external_type_specification]
#[verifier::external_body]
pub struct ExContext(lambda_runtime::Context);

/// `lambda_runtime::LambdaEvent<T>`, declared with its fields: `payload: T`
/// and `context: Context`, both public in the runtime's source. No more is
/// claimed of it than that it is the pair of the two.
#[verifier::external_type_specification]
pub struct ExLambdaEvent<T>(lambda_runtime::LambdaEvent<T>);

/// `LambdaEvent::into_parts` takes the event apart: the pair it returns is
/// the event's `payload` field and its `context` field, each as it stood in
/// the event. It cannot fail and touches nothing else.
pub assume_specification<T>[ lambda_runtime::LambdaEvent::<T>::into_parts ](
    event: LambdaEvent<T>,
) -> (parts: (T, Context))
    ensures
        parts.0 == event.payload,
        parts.1 == event.context,
;

} // verus!
