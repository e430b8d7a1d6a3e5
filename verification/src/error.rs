//! Failure taxonomy of the dispatch core.
//!
//! Distinct kinds keep "the request was never dispatched", "the request ran
//! but its result was lost", and "the whole directory could not be built"
//! apart, so that a caller can react to each one differently.

use vstd::prelude::*;

verus! {

/// Failure raised by a processor, either while it is constructed or while it
/// handles one request.  Carries a human-readable description only.
#[derive(Debug, Clone)]
pub struct HandlerError {
    pub message: String,
}

impl HandlerError {
    /// Builds a processor failure from its description.
    pub fn new(message: String) -> (r: HandlerError)
        ensures
            r.message@ == message@,
    {
        HandlerError { message }
    }
}

/// Failure of a single submission through a client handle.
#[derive(Debug, Clone, Copy, PartialEq, Eq, Structural)]
pub enum SubmitError {
    /// The command could not be handed to the worker: its channel is closed
    /// because the worker thread has terminated.  The request never ran.
    Dispatch,
    /// The command was handed over, but the reply channel was dropped before
    /// a response arrived: the worker died while the request was in flight.
    /// The request may have run, but its result was lost.
    LostResponse,
}

/// Failure of the directory construction as a whole.
#[derive(Debug, Clone, Copy, PartialEq, Eq, Structural)]
pub enum ConfigError {
    /// The list of model repository identifiers was empty.
    NoModelsProvided,
}

/// Failure while bringing up the dedicated worker of one executor.
#[derive(Debug, Clone, Copy, PartialEq, Eq, Structural)]
pub enum SpawnError {
    /// The private runtime that hosts the worker could not be built.
    RuntimeSetup,
}

/// Failure while parsing a model repository identifier.
#[derive(Debug, Clone, Copy, PartialEq, Eq, Structural)]
pub enum RepoParseError {
    /// The identifier does not have the shape `owner/name` or
    /// `owner/name:revision` with all three parts non-empty.
    Malformed,
}

} // verus!
