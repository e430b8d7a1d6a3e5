//! The queue: a processor turned into a concurrently callable service backed
//! by exactly one dedicated worker.
//!
//! A [`Queue`] owns a private runtime, spawns one detached worker on its
//! blocking pool, constructs (or receives) exactly one processor instance
//! there, and drains an unbounded command channel serially against it.  The
//! only externally shared handle is the channel's sending end, so the
//! processor is never observed by two callers at once: that is the design's
//! safety argument, and it needs no lock.
//!
//! The worker ends when every sending end is gone, when a [`QueueCommand::Stop`]
//! arrives, or when the processor fails on a request; in the last case the
//! in-flight entry's reply channel is dropped unanswered and every later
//! submission to the queue fails.

use core::marker::PhantomData;
use std::sync::Arc;
use vstd::prelude::*;

use crate::error::{HandlerError, SpawnError};
use crate::ext::{
    build_runtime, clone_sender, command_channel, fresh_task_id, instant_now, recv_command,
    send_command, send_reply, share_arc,
};
use crate::task::{TaskId, TaskRequest, TaskResponse};

verus! {

/// Size of the worker-thread pool of each queue's private runtime.  The pool
/// only hosts the worker; processor calls are serial by design.
pub const WORKER_THREADS: usize = 4;

/// Step budget of one worker: the number of commands a worker is willing to
/// drain in its lifetime.  It bounds the worker loop's termination metric;
/// no real workload exhausts it.
pub const WORKER_BUDGET: u64 = u64::MAX;

/// A stateful task processor: constructed exactly once, on the worker
/// thread, and then handed one request at a time.
///
/// `handle` may keep internal mutable state; the worker loop guarantees by
/// construction that it is never called concurrently with itself.
pub trait RequestHandler<TReq, TResp>: Sized where TReq: TaskRequest, TResp: TaskResponse {
    /// Performs all expensive, thread-affine setup.
    fn new() -> Result<Self, HandlerError>;

    /// Turns one request into one response, or fails.
    fn handle(&mut self, request: TReq) -> Result<TResp, HandlerError>;
}

/// One in-flight unit of work: an identifier, the request payload, the
/// single-use reply channel, and the timestamp at which it was enqueued.
///
/// The reply channel is used at most once; when its receiving end has
/// already been dropped, delivery is quietly skipped and the worker goes on.
#[derive(Debug)]
#[verifier::reject_recursive_types(TResp)]
pub struct QueueEntry<TReq, TResp> where TReq: TaskRequest, TResp: TaskResponse {
    /// Identifier of this entry.
    pub id: TaskId,
    /// The request payload.
    pub request: TReq,
    /// Sending end of the single-use reply channel.
    pub response_tx: tokio::sync::oneshot::Sender<TResp>,
    /// When this entry was enqueued.
    pub queue_time: std::time::Instant,
}

impl<TReq: TaskRequest, TResp: TaskResponse> QueueEntry<TReq, TResp> {
    /// Wraps a request and its reply channel into an entry, stamped with a
    /// fresh identifier and the current time.
    pub fn new(request: TReq, response_tx: tokio::sync::oneshot::Sender<TResp>) -> (r: Self)
        ensures
            r.request == request,
            r.response_tx == response_tx,
    {
        QueueEntry { id: fresh_task_id(), request, response_tx, queue_time: instant_now() }
    }
}

/// The message alphabet a worker accepts: enqueue a task, or stop.
#[derive(Debug)]
#[verifier::reject_recursive_types(TResp)]
pub enum QueueCommand<TReq, TResp> where TReq: TaskRequest, TResp: TaskResponse {
    /// Process this entry.
    Append(QueueEntry<TReq, TResp>),
    /// Terminate the worker loop.
    Stop,
}

/// Request queue with a stateful task processor: holds the submission end of
/// the command channel and the runtime that hosts the worker.
///
/// The sender is dropped before the runtime (field order), so letting go of
/// a queue and of every cloned sender closes the channel, lets the worker
/// run out, and only then joins the runtime.
#[verifier::reject_recursive_types(TReq)]
#[verifier::reject_recursive_types(TResp)]
pub struct Queue<TReq, TResp, TProc> where
    TReq: TaskRequest,
    TResp: TaskResponse,
    TProc: RequestHandler<TReq, TResp>,
 {
    tx: tokio::sync::mpsc::UnboundedSender<QueueCommand<TReq, TResp>>,
    runtime: Arc<tokio::runtime::Runtime>,
    _processor: PhantomData<TProc>,
}

/// Decides what the worker does with one processing outcome: a successful
/// response is offered on the entry's reply channel, where delivery to an
/// already-gone receiver is a no-op; a processing failure is handed back
/// unchanged — the reply channel is dropped without a response, so the
/// caller observes a closed channel rather than a hang.
pub fn settle_entry<TResp: TaskResponse>(
    outcome: Result<TResp, HandlerError>,
    response_tx: tokio::sync::oneshot::Sender<TResp>,
) -> (r: Result<(), HandlerError>)
    ensures
        r is Ok <==> outcome is Ok,
        outcome matches Err(e) ==> r matches Err(re) && re == e,
{
    match outcome {
        Ok(response) => {
            let _delivered = send_reply(response_tx, response);
            Ok(())
        },
        Err(e) => Err(e),
    }
}

/// Runs the processor on one entry's request and settles the outcome; see
/// [`settle_entry`] for what each outcome means.  What the processor
/// returns is its own business, so no more is stated here.
fn process_entry<TReq, TResp, TProc>(processor: &mut TProc, entry: QueueEntry<TReq, TResp>) -> (r:
    Result<(), HandlerError>) where
    TReq: TaskRequest,
    TResp: TaskResponse,
    TProc: RequestHandler<TReq, TResp>,
{
    let QueueEntry { id: _, request, response_tx, queue_time: _ } = entry;
    let outcome = processor.handle(request);
    settle_entry(outcome, response_tx)
}

/// The worker loop: drains commands serially against the one processor
/// instance.  Ends with `Ok` when the channel closes or a stop command
/// arrives, and with the processor's failure when a request fails; one
/// request is fully handled before the next is dequeued.
fn run_worker<TReq, TResp, TProc>(
    rx: &mut tokio::sync::mpsc::UnboundedReceiver<QueueCommand<TReq, TResp>>,
    processor: &mut TProc,
    budget: u64,
) -> (r: Result<(), HandlerError>) where
    TReq: TaskRequest,
    TResp: TaskResponse,
    TProc: RequestHandler<TReq, TResp>,

    ensures
        budget == 0 ==> r is Ok,
{
    let mut remaining: u64 = budget;
    loop
        invariant
            remaining <= budget,
        decreases remaining,
    {
        if remaining == 0 {
            return Ok(());
        }
        remaining = remaining - 1;
        match recv_command(rx) {
            None => {
                return Ok(());
            },
            Some(QueueCommand::Stop) => {
                return Ok(());
            },
            Some(QueueCommand::Append(entry)) => {
                match process_entry(processor, entry) {
                    Ok(_) => {},
                    Err(e) => {
                        return Err(e);
                    },
                }
            },
        }
    }
}

/// Entry point of the worker thread: constructs the processor there when no
/// instance was handed over, then drains the channel.  A processor that
/// fails to construct ends the thread at once — observable only as a queue
/// that answers nothing; the loop's own failure ends the thread likewise.
fn worker_entry<TReq, TResp, TProc>(
    rx: tokio::sync::mpsc::UnboundedReceiver<QueueCommand<TReq, TResp>>,
    seed: Option<TProc>,
) where TReq: TaskRequest, TResp: TaskResponse, TProc: RequestHandler<TReq, TResp> {
    let mut receiver = rx;
    let mut processor: TProc = match seed {
        Some(p) => p,
        None => {
            match TProc::new() {
                Ok(p) => p,
                Err(_) => {
                    return ;
                },
            }
        },
    };
    let _outcome = run_worker(&mut receiver, &mut processor, WORKER_BUDGET);
}

/// Relies on tokio's Runtime::spawn_blocking: runs the worker entry on a
/// thread of the runtime's blocking pool, detached from the caller; the
/// handed function keeps running until it returns.
#[verifier::external_body]
fn spawn_worker<TReq, TResp, TProc>(
    runtime: &tokio::runtime::Runtime,
    rx: tokio::sync::mpsc::UnboundedReceiver<QueueCommand<TReq, TResp>>,
    seed: Option<TProc>,
) where
    TReq: TaskRequest,
    TResp: TaskResponse,
    TProc: RequestHandler<TReq, TResp> + Send + 'static,
{
    runtime.spawn_blocking(move || worker_entry(rx, seed));
}

impl<TReq, TResp, TProc> Queue<TReq, TResp, TProc> where
    TReq: TaskRequest,
    TResp: TaskResponse,
    TProc: RequestHandler<TReq, TResp> + Send + 'static,
 {
    /// The submission sender this queue holds, for contracts to speak of:
    /// [`get_tx`](Self::get_tx) hands out its equals.
    pub closed spec fn spec_tx(&self) -> tokio::sync::mpsc::UnboundedSender<
        QueueCommand<TReq, TResp>,
    > {
        self.tx
    }

    /// Brings up the channel, the private runtime and the detached worker;
    /// the processor is the given instance, or is constructed on the worker
    /// thread when none is given.
    fn spawn(seed: Option<TProc>) -> (r: Result<Self, SpawnError>)
        ensures
            r matches Err(e) ==> e == SpawnError::RuntimeSetup,
    {
        let (tx, rx) = command_channel();
        let runtime = match build_runtime(WORKER_THREADS) {
            Some(rt) => rt,
            None => {
                return Err(SpawnError::RuntimeSetup);
            },
        };
        spawn_worker(&runtime, rx, seed);
        Ok(Queue { tx, runtime: Arc::new(runtime), _processor: PhantomData })
    }

    /// Creates a queue whose processor is constructed via
    /// [`RequestHandler::new`], on the worker thread.
    pub fn new() -> (r: Result<Self, SpawnError>)
        ensures
            r matches Err(e) ==> e == SpawnError::RuntimeSetup,
    {
        Self::spawn(None)
    }

    /// Creates a queue around an already-constructed processor instance,
    /// which moves to the worker thread.
    pub fn with_handler(handler: TProc) -> (r: Result<Self, SpawnError>)
        ensures
            r matches Err(e) ==> e == SpawnError::RuntimeSetup,
    {
        Self::spawn(Some(handler))
    }

    /// Another sending end of this queue's command channel: the very sender
    /// this queue holds, cloned.
    pub(crate) fn get_tx(&self) -> (r: tokio::sync::mpsc::UnboundedSender<
        QueueCommand<TReq, TResp>,
    >)
        ensures
            r == self.spec_tx(),
    {
        clone_sender(&self.tx)
    }

    /// Asks the worker to terminate; reports whether the request reached the
    /// channel.  Entries enqueued earlier are still drained first.
    pub fn stop(&self) -> bool {
        send_command(&self.tx, QueueCommand::Stop)
    }
}

impl<TReq, TResp, TProc> Clone for Queue<TReq, TResp, TProc> where
    TReq: TaskRequest,
    TResp: TaskResponse,
    TProc: RequestHandler<TReq, TResp>,
 {
    /// Another handle on the same channel and runtime.
    fn clone(&self) -> (r: Self)
        ensures
            r == *self,
    {
        Queue {
            tx: clone_sender(&self.tx),
            runtime: share_arc(&self.runtime),
            _processor: PhantomData,
        }
    }
}

} // verus!
