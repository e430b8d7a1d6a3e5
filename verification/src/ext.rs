//! Trusted boundary to the channel, identifier and runtime primitives of the
//! outside crates.
//!
//! Everything here is believed, not proved: each declaration makes an outside
//! type usable in signatures, and each wrapper makes one outside call.  The
//! contracts state only what the outside crates' own documentation plainly
//! gives; outcomes that depend on the peer end of a channel, on chance or on
//! scheduling are left unstated, and the callers say what holds of every
//! outcome.

use vstd::prelude::*;

use crate::task::TaskId;

verus! {

#[verifier::external_type_specification]
#[verifier::external_body]
#[verifier::reject_recursive_types(T)]
pub struct ExUnboundedSender<T>(tokio::sync::mpsc::UnboundedSender<T>);

#[verifier::external_type_specification]
#[verifier::external_body]
#[verifier::reject_recursive_types(T)]
pub struct ExUnboundedReceiver<T>(tokio::sync::mpsc::UnboundedReceiver<T>);

#[verifier::external_type_specification]
#[verifier::external_body]
#[verifier::reject_recursive_types(T)]
pub struct ExOneshotSender<T>(tokio::sync::oneshot::Sender<T>);

#[verifier::external_type_specification]
#[verifier::external_body]
#[verifier::reject_recursive_types(T)]
pub struct ExOneshotReceiver<T>(tokio::sync::oneshot::Receiver<T>);

#[verifier::external_type_specification]
#[verifier::external_body]
pub struct ExRecvError(tokio::sync::oneshot::error::RecvError);

#[verifier::external_type_specification]
#[verifier::external_body]
pub struct ExRuntime(tokio::runtime::Runtime);

#[verifier::external_type_specification]
#[verifier::external_body]
pub struct ExInstant(std::time::Instant);

/// Relies on tokio::sync::mpsc::unbounded_channel: the sending and the
/// receiving end of one fresh unbounded channel.
#[verifier::external_body]
pub(crate) fn command_channel<T>() -> (
    tokio::sync::mpsc::UnboundedSender<T>,
    tokio::sync::mpsc::UnboundedReceiver<T>,
) {
    tokio::sync::mpsc::unbounded_channel()
}

/// Relies on tokio's UnboundedSender::clone: another sending end of the same
/// channel, indistinguishable from the one it was cloned from and safe to
/// hand to a different thread.
#[verifier::external_body]
pub(crate) fn clone_sender<T>(tx: &tokio::sync::mpsc::UnboundedSender<T>) -> (r:
    tokio::sync::mpsc::UnboundedSender<T>)
    ensures
        r == *tx,
{
    tx.clone()
}

/// Relies on tokio's UnboundedSender::send: delivers the message into the
/// channel's queue without blocking, and reports `true` exactly when the
/// receiving end was still open; a refused message is dropped.  Whether the
/// peer is open depends on scheduling, so nothing more is stated.
#[verifier::external_body]
pub(crate) fn send_command<T>(tx: &tokio::sync::mpsc::UnboundedSender<T>, message: T) -> bool {
    tx.send(message).is_ok()
}

/// Relies on tokio's UnboundedReceiver::blocking_recv: blocks the calling
/// thread until a message arrives, and reports `None` once every sending end
/// is gone and the queue is drained.  Must be called from outside a runtime's
/// task context; the worker thread that calls it is such a place.
#[verifier::external_body]
pub(crate) fn recv_command<T>(rx: &mut tokio::sync::mpsc::UnboundedReceiver<T>) -> Option<T> {
    rx.blocking_recv()
}

/// Relies on tokio::sync::oneshot::channel: the two ends of one fresh
/// single-use reply channel.
#[verifier::external_body]
pub(crate) fn reply_channel<T>() -> (
    tokio::sync::oneshot::Sender<T>,
    tokio::sync::oneshot::Receiver<T>,
) {
    tokio::sync::oneshot::channel()
}

/// Relies on tokio's oneshot::Sender::send: consumes the sending end, and
/// reports `true` exactly when the receiving end was still alive to take the
/// value; an undeliverable value is dropped, never a panic.
#[verifier::external_body]
pub(crate) fn send_reply<T>(tx: tokio::sync::oneshot::Sender<T>, value: T) -> bool {
    tx.send(value).is_ok()
}

/// Relies on tokio's oneshot::Receiver::blocking_recv: blocks the calling
/// thread until the value arrives (`Some`), or until the sending end is
/// dropped without one (`None`).  Must be called from outside a runtime's
/// task context.
#[verifier::external_body]
pub(crate) fn await_reply<T>(rx: tokio::sync::oneshot::Receiver<T>) -> Option<T> {
    rx.blocking_recv().ok()
}

/// Relies on uuid::Uuid::new_v4: a freshly drawn random identifier, handed
/// back as its 128-bit value.  The draw is random, so nothing is stated of
/// the result.
#[verifier::external_body]
pub(crate) fn fresh_task_id() -> TaskId {
    uuid::Uuid::new_v4().as_u128()
}

/// Relies on std::time::Instant::now: the current monotonic timestamp.
#[verifier::external_body]
pub(crate) fn instant_now() -> std::time::Instant {
    std::time::Instant::now()
}

/// Relies on std's Arc::clone: another counted reference to the same shared
/// allocation, indistinguishable from the one it was cloned from.
#[verifier::external_body]
pub(crate) fn share_arc<T>(shared: &std::sync::Arc<T>) -> (r: std::sync::Arc<T>)
    ensures
        r == *shared,
{
    std::sync::Arc::clone(shared)
}

/// Relies on tokio's runtime Builder: a private multi-thread runtime with the
/// given worker pool size, or `None` when the operating system refuses the
/// resources for it.  The builder refuses an empty pool outright (it
/// panics), so one worker is the least this call admits.
#[verifier::external_body]
pub(crate) fn build_runtime(worker_threads: usize) -> Option<tokio::runtime::Runtime>
    requires
        worker_threads >= 1,
{
    tokio::runtime::Builder::new_multi_thread()
        .worker_threads(worker_threads)
        .thread_name("queue-worker")
        .build()
        .ok()
}

} // verus!
