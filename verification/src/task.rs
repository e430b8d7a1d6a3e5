//! Capability markers for the payloads that move through a queue.

use vstd::prelude::*;

verus! {

/// Identifier attached to one in-flight queue entry.
pub type TaskId = u128;

/// Capability marker for a request payload.
///
/// It prescribes no structure: it only certifies that a value of the type can
/// be moved to the dedicated worker thread.  Each request produces exactly
/// one response.
pub trait TaskRequest: Send + 'static {

}

/// Capability marker for a response payload, the counterpart of
/// [`TaskRequest`]: a value of the type can be moved back from the worker
/// thread to the submitting caller.
pub trait TaskResponse: Send + 'static {

}

} // verus!
