use std::sync::{Arc, Mutex};

use infer_dispatch::error::{HandlerError, SubmitError};
use infer_dispatch::executor::{Client, DedicatedExecutor};
use infer_dispatch::queue::RequestHandler;
use infer_dispatch::task::{TaskRequest, TaskResponse};

#[derive(Debug, Clone, Copy, PartialEq, Eq)]
pub struct Tag(pub u64);
impl TaskRequest for Tag {}

#[derive(Debug, Clone, Copy, PartialEq, Eq)]
pub struct Echoed(pub u64);
impl TaskResponse for Echoed {}

struct EchoHandler;

impl RequestHandler<Tag, Echoed> for EchoHandler {
    fn new() -> Result<Self, HandlerError> {
        Ok(EchoHandler)
    }

    fn handle(&mut self, request: Tag) -> Result<Echoed, HandlerError> {
        Ok(Echoed(request.0))
    }
}

struct RecordingHandler {
    seen: Arc<Mutex<Vec<u64>>>,
}

impl RequestHandler<Tag, Echoed> for RecordingHandler {
    fn new() -> Result<Self, HandlerError> {
        Ok(RecordingHandler { seen: Arc::new(Mutex::new(Vec::new())) })
    }

    fn handle(&mut self, request: Tag) -> Result<Echoed, HandlerError> {
        self.seen.lock().unwrap().push(request.0);
        Ok(Echoed(request.0))
    }
}

struct FragileHandler;

impl RequestHandler<Tag, Echoed> for FragileHandler {
    fn new() -> Result<Self, HandlerError> {
        Ok(FragileHandler)
    }

    fn handle(&mut self, request: Tag) -> Result<Echoed, HandlerError> {
        if request.0 == 13 {
            Err(HandlerError::new("unlucky request".to_string()))
        } else {
            Ok(Echoed(request.0))
        }
    }
}

struct NeverBuilds;

impl RequestHandler<Tag, Echoed> for NeverBuilds {
    fn new() -> Result<Self, HandlerError> {
        Err(HandlerError::new("no device".to_string()))
    }

    fn handle(&mut self, _request: Tag) -> Result<Echoed, HandlerError> {
        unreachable!()
    }
}

#[test]
fn each_reply_matches_its_own_tag() {
    let executor = DedicatedExecutor::new(EchoHandler).unwrap();
    let client = Client::new(&executor);
    for x in 0..16u64 {
        assert_eq!(client.submit(Tag(x)), Ok(Echoed(x)));
    }
}

#[test]
fn in_flight_dispatches_correlate_with_their_tags() {
    let executor = DedicatedExecutor::new(EchoHandler).unwrap();
    let client = Client::new(&executor);
    // eight requests are in flight at once before any reply is read; each
    // reply must still reach the receiver that belongs to its own tag
    let mut pending = Vec::new();
    for x in 0..8u64 {
        pending.push((x, client.dispatch(Tag(x)).unwrap()));
    }
    for (x, reply_rx) in pending {
        assert_eq!(reply_rx.blocking_recv().unwrap(), Echoed(x));
    }
}

#[test]
fn clones_share_the_same_worker() {
    let executor = DedicatedExecutor::new(EchoHandler).unwrap();
    let client = Client::new(&executor);
    let other = client.clone();
    assert_eq!(client.submit(Tag(1)), Ok(Echoed(1)));
    assert_eq!(other.submit(Tag(2)), Ok(Echoed(2)));
}

#[test]
fn single_producer_is_processed_in_submission_order() {
    let seen = Arc::new(Mutex::new(Vec::new()));
    let executor = DedicatedExecutor::new(RecordingHandler { seen: seen.clone() }).unwrap();
    let client = Client::new(&executor);
    for x in 1..=10u64 {
        assert!(client.submit_and_forget(Tag(x)));
    }
    // a final awaited request flushes the queue: everything enqueued before
    // it is handled before it
    assert_eq!(client.submit(Tag(99)), Ok(Echoed(99)));
    let recorded = seen.lock().unwrap().clone();
    assert_eq!(recorded, vec![1, 2, 3, 4, 5, 6, 7, 8, 9, 10, 99]);
}

#[test]
fn abandoned_reply_does_not_hurt_the_worker() {
    let executor = DedicatedExecutor::new(EchoHandler).unwrap();
    let client = Client::new(&executor);
    assert!(client.submit_and_forget(Tag(7)));
    assert_eq!(client.submit(Tag(8)), Ok(Echoed(8)));
}

#[test]
fn processing_failure_loses_the_reply_and_retires_the_worker() {
    let executor = DedicatedExecutor::new(FragileHandler).unwrap();
    let client = Client::new(&executor);
    assert_eq!(client.submit(Tag(1)), Ok(Echoed(1)));
    assert_eq!(client.submit(Tag(13)), Err(SubmitError::LostResponse));
    // documented current behavior: one failed request takes the whole
    // worker down, so every later submission fails as well
    assert!(client.submit(Tag(2)).is_err());
}

#[test]
fn processor_can_be_constructed_on_the_worker_thread() {
    let executor = DedicatedExecutor::<Tag, Echoed, EchoHandler>::start().unwrap();
    let client = Client::new(&executor);
    assert_eq!(client.submit(Tag(5)), Ok(Echoed(5)));
}

#[test]
fn construction_failure_leaves_a_dead_queue() {
    let executor = DedicatedExecutor::<Tag, Echoed, NeverBuilds>::start().unwrap();
    let client = Client::new(&executor);
    assert!(client.submit(Tag(5)).is_err());
}

#[test]
fn shutdown_retires_the_worker() {
    let executor = DedicatedExecutor::new(EchoHandler).unwrap();
    let client = Client::new(&executor);
    assert_eq!(client.submit(Tag(1)), Ok(Echoed(1)));
    assert!(executor.shutdown());
    let mut failed = false;
    for _ in 0..1_000_000u64 {
        if client.submit(Tag(2)).is_err() {
            failed = true;
            break;
        }
    }
    assert!(failed, "the worker kept serving after a stop command");
}
