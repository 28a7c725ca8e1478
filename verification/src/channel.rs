//! The runtime transport of the pipeline: flume channels behind trusted
//! wrappers. The admission queue is a bounded channel of capacity one, the
//! per-request token stream and the cancellation registry feed are
//! unbounded channels. Channel contents are shared with other threads, so
//! no contract here claims what a receive yields; everything provable
//! about the values moved through these channels is stated on the verified
//! functions that produce and consume them.

use vstd::prelude::*;

use crate::model::QueueClosed;
use crate::model::Request;
use crate::model::Token;

verus! {

/// flume's transmitting channel end.
#[verifier::external_type_specification]
#[verifier::external_body]
#[verifier::reject_recursive_types(T)]
pub struct ExSender<T>(flume::Sender<T>);

/// flume's receiving channel end.
#[verifier::external_type_specification]
#[verifier::external_body]
#[verifier::reject_recursive_types(T)]
pub struct ExReceiver<T>(flume::Receiver<T>);

/// Relies on `flume::bounded` with capacity one: a FIFO channel whose
/// `send` blocks while one message is already queued and unconsumed.
#[verifier::external_body]
fn new_request_channel() -> (flume::Sender<Request>, flume::Receiver<Request>) {
    flume::bounded(1)
}

/// Relies on `flume::Sender::send` on a bounded channel: blocks until a
/// slot is free, delivers in FIFO order, and fails exactly when every
/// receiver is gone.
#[verifier::external_body]
fn send_request(tx: &flume::Sender<Request>, req: Request) -> bool {
    tx.send(req).is_ok()
}

/// Relies on `flume::Receiver::recv`: blocks until a message arrives,
/// yields queued messages in FIFO order, and fails exactly when the
/// channel is empty and every sender is gone.
#[verifier::external_body]
fn recv_request(rx: &flume::Receiver<Request>) -> Option<Request> {
    rx.recv().ok()
}

/// Relies on `flume::unbounded`: a FIFO channel whose `send` never blocks.
#[verifier::external_body]
fn new_token_channel() -> (flume::Sender<Token>, flume::Receiver<Token>) {
    flume::unbounded()
}

/// Relies on `flume::Sender::send` on an unbounded channel: never blocks,
/// keeps FIFO order, and fails exactly when every receiver is gone.
#[verifier::external_body]
fn send_token(tx: &flume::Sender<Token>, t: Token) -> bool {
    tx.send(t).is_ok()
}

/// Relies on `flume::Receiver::recv`, as for requests.
#[verifier::external_body]
fn recv_token(rx: &flume::Receiver<Token>) -> Option<Token> {
    rx.recv().ok()
}

/// Relies on `flume::unbounded`, as for tokens.
#[verifier::external_body]
fn new_cancellation_channel() -> (flume::Sender<u64>, flume::Receiver<u64>) {
    flume::unbounded()
}

/// Relies on `flume::Sender::send` on an unbounded channel, as for tokens.
#[verifier::external_body]
fn send_cancellation(tx: &flume::Sender<u64>, id: u64) -> bool {
    tx.send(id).is_ok()
}

/// Relies on `flume::Receiver::drain`: atomically takes every message
/// sitting in the channel, in FIFO order, and fetches nothing further.
#[verifier::external_body]
fn drain_cancellations(rx: &flume::Receiver<u64>) -> Vec<u64> {
    rx.drain().collect()
}

/// Producer end of the admission queue. Capacity is one: a second submit
/// blocks until the worker has taken the queued request.
pub struct RequestSender {
    tx: flume::Sender<Request>,
}

/// Worker end of the admission queue.
pub struct RequestReceiver {
    rx: flume::Receiver<Request>,
}

/// Producer end of one request's token stream.
pub struct TokenSender {
    tx: flume::Sender<Token>,
}

/// Consumer end of one request's token stream.
pub struct TokenReceiver {
    rx: flume::Receiver<Token>,
}

/// Feed of the cancellation registry; any event source may hold one.
pub struct CancellationSender {
    tx: flume::Sender<u64>,
}

/// Polling end of the cancellation registry; only the worker drains it.
pub struct CancellationReceiver {
    rx: flume::Receiver<u64>,
}

/// Creates the admission queue: one slot, FIFO, blocking on submit.
pub fn request_queue() -> (ends: (RequestSender, RequestReceiver)) {
    let (tx, rx) = new_request_channel();
    (RequestSender { tx }, RequestReceiver { rx })
}

/// Creates one request's token stream: unbounded, FIFO.
pub fn token_channel() -> (ends: (TokenSender, TokenReceiver)) {
    let (tx, rx) = new_token_channel();
    (TokenSender { tx }, TokenReceiver { rx })
}

/// Creates the cancellation registry feed: unbounded, never blocking.
pub fn cancellation_channel() -> (ends: (CancellationSender, CancellationReceiver)) {
    let (tx, rx) = new_cancellation_channel();
    (CancellationSender { tx }, CancellationReceiver { rx })
}

impl RequestSender {
    /// Submits a request, blocking while another one is still queued.
    /// Fails only when the queue is permanently closed.
    pub fn submit(&self, req: Request) -> (r: Result<(), QueueClosed>) {
        if send_request(&self.tx, req) {
            Ok(())
        } else {
            Err(QueueClosed)
        }
    }
}

impl RequestReceiver {
    /// Blocks for the next request; `None` when the queue is closed.
    pub fn take(&self) -> (r: Option<Request>) {
        recv_request(&self.rx)
    }
}

impl TokenSender {
    /// Publishes one token without blocking; reports whether the consumer
    /// is still there.
    pub fn publish(&self, t: Token) -> (delivered: bool) {
        send_token(&self.tx, t)
    }
}

impl TokenReceiver {
    /// Blocks for the next token; `None` when the stream has ended.
    pub fn next_token(&self) -> (r: Option<Token>) {
        recv_token(&self.rx)
    }
}

impl CancellationSender {
    /// Registers an identifier: fire-and-forget, never blocks. Reports
    /// whether the registry still has a polling end.
    pub fn register(&self, id: u64) -> (delivered: bool) {
        send_cancellation(&self.tx, id)
    }
}

impl CancellationReceiver {
    /// Atomically drains every pending identifier.
    pub fn drain(&self) -> (drained: Vec<u64>) {
        drain_cancellations(&self.rx)
    }
}

} // verus!
