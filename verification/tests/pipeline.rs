use chatbot_core::channel::cancellation_channel;
use chatbot_core::channel::request_queue;
use chatbot_core::channel::token_channel;
use chatbot_core::model::GenerationError;
use chatbot_core::model::Request;
use chatbot_core::model::Token;
use chatbot_core::queue::AdmissionState;
use chatbot_core::registry::CancellationRegistry;
use chatbot_core::stream::TokenFifo;
use chatbot_core::worker::decide_event;
use chatbot_core::worker::EventAction;
use chatbot_core::worker::InferenceEvent;

#[test]
fn fragment_without_pending_cancellation_is_published() {
    let a = decide_event(1, &vec![], InferenceEvent::Fragment("hi".to_string()));
    assert!(matches!(a, EventAction::Publish(f) if f == "hi"));
}

#[test]
fn pending_identifier_cancels_the_matching_request() {
    let a = decide_event(2, &vec![9, 2, 5], InferenceEvent::Fragment("hi".to_string()));
    assert!(matches!(a, EventAction::Cancel));
}

#[test]
fn unrelated_identifiers_do_not_cancel() {
    let a = decide_event(2, &vec![9, 5], InferenceEvent::Fragment("hi".to_string()));
    assert!(matches!(a, EventAction::Publish(_)));
}

#[test]
fn end_of_text_is_treated_as_cancellation() {
    let a = decide_event(1, &vec![], InferenceEvent::EndOfText);
    assert!(matches!(a, EventAction::Cancel));
}

#[test]
fn registry_drain_returns_everything_once() {
    let mut reg = CancellationRegistry::new();
    reg.register(3);
    reg.register(4);
    reg.register(3);
    assert_eq!(reg.drain(), vec![3, 4, 3]);
    assert_eq!(reg.drain(), Vec::<u64>::new());
}

#[test]
fn draining_an_empty_registry_is_idempotent() {
    let mut reg = CancellationRegistry::new();
    assert_eq!(reg.drain(), Vec::<u64>::new());
    assert_eq!(reg.drain(), Vec::<u64>::new());
}

#[test]
fn token_fifo_preserves_production_order() {
    let mut fifo = TokenFifo::new();
    fifo.push(Token::Token("a".to_string()));
    fifo.push(Token::Token("b".to_string()));
    fifo.push(Token::Error(GenerationError::Cancelled));
    let out = fifo.drain_in_order();
    assert_eq!(
        out,
        vec![
            Token::Token("a".to_string()),
            Token::Token("b".to_string()),
            Token::Error(GenerationError::Cancelled),
        ]
    );
    assert_eq!(fifo.pop(), None);
}

#[test]
fn admission_allows_at_most_two_in_the_system() {
    let mut s = AdmissionState::new();
    s.submit(1);
    let id = s.take();
    assert_eq!(id, 1);
    s.submit(2);
    // One running, one queued: a third submission cannot be admitted and
    // the worker cannot take the queued request until the first completes.
    s.complete();
    let id = s.take();
    assert_eq!(id, 2);
    s.complete();
}

#[test]
fn queue_admits_one_request_at_a_time() {
    // The runtime transport has the same discipline: capacity one.
    let (tx, rx) = flume::bounded::<u64>(1);
    assert!(tx.try_send(1).is_ok());
    assert!(matches!(tx.try_send(2), Err(flume::TrySendError::Full(2))));
    assert_eq!(rx.recv().unwrap(), 1);
    assert!(tx.try_send(2).is_ok());
}

#[test]
fn published_tokens_arrive_in_order_over_the_channel() {
    let (tx, rx) = token_channel();
    assert!(tx.publish(Token::Token("a".to_string())));
    assert!(tx.publish(Token::Token("b".to_string())));
    assert!(tx.publish(Token::Token("c".to_string())));
    drop(tx);
    assert_eq!(rx.next_token(), Some(Token::Token("a".to_string())));
    assert_eq!(rx.next_token(), Some(Token::Token("b".to_string())));
    assert_eq!(rx.next_token(), Some(Token::Token("c".to_string())));
    assert_eq!(rx.next_token(), None);
}

#[test]
fn worker_publishes_fragments_for_an_uncancelled_request() {
    let (cancel_tx, cancel_rx) = cancellation_channel();
    let (token_tx, token_rx) = token_channel();
    let req = Request::new(1, "p".to_string(), token_tx);
    let _ = cancel_tx;
    let r = req.handle_generator_event(
        &cancel_rx,
        InferenceEvent::Fragment("Hello".to_string()),
    );
    assert_eq!(r, Ok(()));
    assert_eq!(token_rx.next_token(), Some(Token::Token("Hello".to_string())));
}

#[test]
fn registered_cancellation_stops_generation_before_any_token() {
    let (cancel_tx, cancel_rx) = cancellation_channel();
    let (token_tx, token_rx) = token_channel();
    let req = Request::new(2, "p".to_string(), token_tx);
    assert!(cancel_tx.register(2));
    let r = req.handle_generator_event(
        &cancel_rx,
        InferenceEvent::Fragment("Hello".to_string()),
    );
    assert_eq!(r, Err(GenerationError::Cancelled));
    // The worker reports the failure terminally on the request's stream.
    assert!(req.report_outcome(r));
    assert_eq!(
        token_rx.next_token(),
        Some(Token::Error(GenerationError::Cancelled))
    );
    drop(req);
    assert_eq!(token_rx.next_token(), None);
}

#[test]
fn cancellations_are_drained_destructively() {
    let (cancel_tx, cancel_rx) = cancellation_channel();
    let (token_tx, _token_rx) = token_channel();
    let req = Request::new(7, "p".to_string(), token_tx);
    assert!(cancel_tx.register(2));
    // The drained batch carried only an unrelated identifier; it is gone
    // for good, and the next poll starts from an empty registry.
    let r = req.handle_generator_event(
        &cancel_rx,
        InferenceEvent::Fragment("x".to_string()),
    );
    assert_eq!(r, Ok(()));
    assert_eq!(cancel_rx.drain(), Vec::<u64>::new());
}

#[test]
fn end_of_text_event_maps_to_cancelled() {
    let (_cancel_tx, cancel_rx) = cancellation_channel();
    let (token_tx, _token_rx) = token_channel();
    let req = Request::new(1, "p".to_string(), token_tx);
    let r = req.handle_generator_event(&cancel_rx, InferenceEvent::EndOfText);
    assert_eq!(r, Err(GenerationError::Cancelled));
}

#[test]
fn closed_consumer_fails_the_publish_with_a_custom_error() {
    let (_cancel_tx, cancel_rx) = cancellation_channel();
    let (token_tx, token_rx) = token_channel();
    let req = Request::new(1, "p".to_string(), token_tx);
    drop(token_rx);
    let r = req.handle_generator_event(
        &cancel_rx,
        InferenceEvent::Fragment("Hello".to_string()),
    );
    assert_eq!(
        r,
        Err(GenerationError::Custom(
            "Failed to send token to channel.".to_string()
        ))
    );
    // The terminal report cannot be delivered either; the worker survives.
    assert!(!req.report_outcome(r));
}

#[test]
fn successful_outcome_needs_no_terminal_token() {
    let (token_tx, token_rx) = token_channel();
    let req = Request::new(1, "p".to_string(), token_tx);
    assert!(req.report_outcome(Ok(())));
    drop(req);
    assert_eq!(token_rx.next_token(), None);
}

#[test]
fn submitted_requests_reach_the_worker_in_order() {
    let (qtx, qrx) = request_queue();
    let (token_tx, _token_rx) = token_channel();
    assert!(qtx.submit(Request::new(1, "one".to_string(), token_tx)).is_ok());
    let got = qrx.take().expect("a request is queued");
    assert_eq!(got.prompt, "one");
}

#[test]
fn submitting_to_a_closed_queue_fails() {
    let (qtx, qrx) = request_queue();
    drop(qrx);
    let (token_tx, _token_rx) = token_channel();
    let r = qtx.submit(Request::new(1, "one".to_string(), token_tx));
    assert!(r.is_err());
}
