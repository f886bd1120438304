//! An echo handler for a serverless function: it answers every invocation
//! with the JSON payload of the event, untouched, and never looks at the
//! invocation context.
//!
//! * [`event`] makes the runtime's event type and the JSON value known to the
//!   verifier.
//! * [`handler`] holds the handler and the function that says what it returns.
//! * [`laws`] states what follows for every payload and every context.

pub mod event;
pub mod handler;
pub mod laws;

pub use handler::{function_handler, HandlerError};
