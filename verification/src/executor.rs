//! The per-model lifecycle wrapper around a queue, and the client handle
//! that callers use.
//!
//! A [`DedicatedExecutor`] owns one queue — and with it one worker and one
//! processor instance — for the lifetime of the loaded model it wraps.  A
//! [`Client`] is a lightweight, cloneable front for it: it holds nothing but
//! a sending end of the queue's channel, so it is safe to share across
//! concurrent callers without locking.

use vstd::prelude::*;

use crate::error::{SpawnError, SubmitError};
use crate::ext::{await_reply, clone_sender, reply_channel, send_command};
use crate::queue::{Queue, QueueCommand, QueueEntry, RequestHandler};
use crate::task::{TaskRequest, TaskResponse};

verus! {

/// Owns the queue that serves one loaded model; shared by reference
/// counting among the directory and its client handles, never mutated after
/// construction.
#[verifier::reject_recursive_types(TReq)]
#[verifier::reject_recursive_types(TResp)]
pub struct DedicatedExecutor<TReq, TResp, TProc> where
    TReq: TaskRequest,
    TResp: TaskResponse,
    TProc: RequestHandler<TReq, TResp>,
 {
    queue: Queue<TReq, TResp, TProc>,
}

impl<TReq, TResp, TProc> DedicatedExecutor<TReq, TResp, TProc> where
    TReq: TaskRequest,
    TResp: TaskResponse,
    TProc: RequestHandler<TReq, TResp> + Send + 'static,
 {
    /// The submission sender of the owned queue, for contracts to speak
    /// of: a client built on this executor holds its equal.
    pub closed spec fn spec_tx(&self) -> tokio::sync::mpsc::UnboundedSender<
        QueueCommand<TReq, TResp>,
    > {
        self.queue.spec_tx()
    }

    /// Brings up a running executor around an already-constructed processor
    /// instance, which moves to the dedicated worker; fails only when the
    /// worker's runtime cannot be set up.
    pub fn new(handler: TProc) -> (r: Result<Self, SpawnError>)
        ensures
            r matches Err(e) ==> e == SpawnError::RuntimeSetup,
    {
        match Queue::with_handler(handler) {
            Ok(queue) => Ok(DedicatedExecutor { queue }),
            Err(e) => Err(e),
        }
    }

    /// Brings up a running executor whose processor is constructed via
    /// [`RequestHandler::new`], on the worker thread itself — the place for
    /// thread-affine setup; fails only when the worker's runtime cannot be
    /// set up.
    pub fn start() -> (r: Result<Self, SpawnError>)
        ensures
            r matches Err(e) ==> e == SpawnError::RuntimeSetup,
    {
        match Queue::new() {
            Ok(queue) => Ok(DedicatedExecutor { queue }),
            Err(e) => Err(e),
        }
    }

    /// Another sending end of the owned queue's command channel.
    pub(crate) fn get_tx(&self) -> (r: tokio::sync::mpsc::UnboundedSender<
        QueueCommand<TReq, TResp>,
    >)
        ensures
            r == self.spec_tx(),
    {
        self.queue.get_tx()
    }

    /// Asks the worker to retire after draining what is already enqueued;
    /// reports whether the request reached the channel.
    pub fn shutdown(&self) -> bool {
        self.queue.stop()
    }
}

/// Client handle: submits requests to one executor's queue and awaits the
/// correlated responses.  Stateless beyond the sending end it holds.
#[verifier::reject_recursive_types(TReq)]
#[verifier::reject_recursive_types(TResp)]
pub struct Client<TReq, TResp> where TReq: TaskRequest, TResp: TaskResponse {
    tx: tokio::sync::mpsc::UnboundedSender<QueueCommand<TReq, TResp>>,
}

impl<TReq, TResp> Client<TReq, TResp> where TReq: TaskRequest, TResp: TaskResponse {
    /// The submission sender this handle holds, for contracts to speak of.
    pub closed spec fn spec_tx(&self) -> tokio::sync::mpsc::UnboundedSender<
        QueueCommand<TReq, TResp>,
    > {
        self.tx
    }
}

/// Turns the two channel outcomes of one submission into the caller's
/// result: a command that never reached the worker's queue is a dispatch
/// failure, a reply channel that closed without a response is a
/// lost-response failure, and a delivered reply is the response itself.
pub fn interpret_submit_outcome<TResp: TaskResponse>(sent: bool, reply: Option<TResp>) -> (r:
    Result<TResp, SubmitError>)
    ensures
        r is Ok <==> sent && reply is Some,
        sent ==> (reply matches Some(v) ==> (r matches Ok(rv) && rv == v)),
        !sent ==> (r matches Err(e) && e == SubmitError::Dispatch),
        sent && reply is None ==> (r matches Err(e) && e == SubmitError::LostResponse),
{
    if !sent {
        Err(SubmitError::Dispatch)
    } else {
        match reply {
            Some(v) => Ok(v),
            None => Err(SubmitError::LostResponse),
        }
    }
}

impl<TReq, TResp> Client<TReq, TResp> where TReq: TaskRequest, TResp: TaskResponse {
    /// A new handle on the given executor's submission channel: it holds
    /// that queue's sender, so everything it submits goes to that worker.
    pub fn new<TProc>(executor: &DedicatedExecutor<TReq, TResp, TProc>) -> (r: Client<
        TReq,
        TResp,
    >) where TProc: RequestHandler<TReq, TResp> + Send + 'static
        ensures
            r.spec_tx() == executor.spec_tx(),
    {
        Client { tx: executor.get_tx() }
    }

    /// Sends one request on its way without waiting: builds a fresh
    /// single-use reply channel, enqueues the entry, and hands back the
    /// receiving end — or a dispatch failure when the worker's channel is
    /// already closed, in which case the request never ran.
    pub fn dispatch(&self, request: TReq) -> (r: Result<
        tokio::sync::oneshot::Receiver<TResp>,
        SubmitError,
    >)
        ensures
            r matches Err(e) ==> e == SubmitError::Dispatch,
    {
        let (reply_tx, reply_rx) = reply_channel();
        let entry = QueueEntry::new(request, reply_tx);
        if send_command(&self.tx, QueueCommand::Append(entry)) {
            Ok(reply_rx)
        } else {
            Err(SubmitError::Dispatch)
        }
    }

    /// Submits one request and waits for its correlated response: dispatches
    /// the entry, then blocks until the worker answers or the reply channel
    /// closes.  The outcome is read exactly as [`interpret_submit_outcome`]
    /// states.
    ///
    /// The wait blocks the calling thread, and tokio panics when a thread
    /// of an async runtime blocks this way: call this from plain threads
    /// only.  A cooperative caller uses [`dispatch`](Self::dispatch) and
    /// awaits the receiving end instead.
    pub fn submit(&self, request: TReq) -> (r: Result<TResp, SubmitError>)
        ensures
            r matches Err(e) ==> e == SubmitError::Dispatch || e == SubmitError::LostResponse,
    {
        match self.dispatch(request) {
            Ok(reply_rx) => interpret_submit_outcome(true, await_reply(reply_rx)),
            Err(_) => interpret_submit_outcome(false, None),
        }
    }

    /// Submits one request and abandons its reply at once: the receiving
    /// end of the reply channel is dropped before the worker can answer, as
    /// happens when a caller gives up early.  The worker must treat the
    /// undeliverable reply as a no-op.  Reports whether the command reached
    /// the queue.
    pub fn submit_and_forget(&self, request: TReq) -> bool {
        let (reply_tx, _reply_rx) = reply_channel();
        let entry = QueueEntry::new(request, reply_tx);
        send_command(&self.tx, QueueCommand::Append(entry))
    }
}

impl<TReq, TResp> Clone for Client<TReq, TResp> where TReq: TaskRequest, TResp: TaskResponse {
    /// Another handle on the same queue.
    fn clone(&self) -> (r: Self)
        ensures
            r == *self,
    {
        Client { tx: clone_sender(&self.tx) }
    }
}

} // verus!
