//! Concurrency core of a model-inference serving process.
//!
//! A stateful processor (for example a loaded model bound to a compute
//! device) must never be touched by two callers at once, yet requests arrive
//! concurrently.  This crate serializes all access to one processor behind a
//! dedicated worker and a message channel, and routes requests for several
//! such processors side by side:
//!
//! * [`queue`] — the command alphabet, the queue entries, and the worker loop
//!   that drains them serially against one processor instance;
//! * [`executor`] — the per-model lifecycle wrapper around a queue, and the
//!   cloneable client handle used to submit a request and wait for its reply;
//! * [`state`] — the directory that maps a logical model name to its client
//!   and executor, with a default model name;
//! * [`repo`] — the verified parser for model repository identifiers;
//! * [`task`] — the request/response capability markers;
//! * [`error`] — the failure taxonomy;
//! * [`ext`] — the trusted boundary to the channel and runtime primitives.

pub mod error;
pub mod executor;
pub mod ext;
pub mod queue;
pub mod repo;
pub mod state;
pub mod task;
