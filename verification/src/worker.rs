//! The per-token decisions of the single inference worker: poll the
//! cancellation registry, abort on a hit or on end of output, otherwise
//! publish the fragment on the request's stream.

use vstd::prelude::*;

use crate::channel::CancellationReceiver;
use crate::model::GenerationError;
use crate::model::Request;
use crate::model::Token;
use crate::registry::CancellationRegistry;

verus! {

/// What the generator hands the worker's callback: one fragment of text,
/// or its internal end-of-output signal.
pub enum InferenceEvent {
    Fragment(String),
    EndOfText,
}

/// What the worker does with one generator event.
pub enum EventAction {
    /// Stop the generator; no further fragments may be produced.
    Cancel,
    /// Publish this fragment on the request's stream and continue.
    Publish(String),
}

/// The worker's decision for one generator event, given the identifiers
/// drained from the cancellation registry at this token boundary: a drained
/// hit on the running request cancels it, the generator's end-of-output
/// signal is treated the same way, and any other fragment is published.
pub open spec fn event_outcome(current: u64, drained: Seq<u64>, event: InferenceEvent) -> EventAction {
    if drained.contains(current) {
        EventAction::Cancel
    } else {
        match event {
            InferenceEvent::Fragment(f) => EventAction::Publish(f),
            InferenceEvent::EndOfText => EventAction::Cancel,
        }
    }
}

fn contains_id(v: &Vec<u64>, x: u64) -> (b: bool)
    ensures
        b == v@.contains(x),
{
    let mut i: usize = 0;
    while i < v.len()
        invariant
            0 <= i <= v@.len(),
            forall|k: int| 0 <= k < i ==> v@[k] != x,
        decreases v@.len() - i,
    {
        if v[i] == x {
            return true;
        }
        i = i + 1;
    }
    proof {
        assert(forall|k: int| 0 <= k < v@.len() ==> v@[k] != x);
    }
    false
}

/// Decides one generator event from the drained registry contents.
pub fn decide_event(current: u64, drained: &Vec<u64>, event: InferenceEvent) -> (a: EventAction)
    ensures
        a == event_outcome(current, drained@, event),
{
    if contains_id(drained, current) {
        EventAction::Cancel
    } else {
        match event {
            InferenceEvent::Fragment(f) => EventAction::Publish(f),
            InferenceEvent::EndOfText => EventAction::Cancel,
        }
    }
}

/// An identifier that is pending in the registry when the worker next
/// polls it cancels the request carrying that identifier: draining yields
/// the registry's full contents, and the decision on a batch containing
/// the running request's identifier is `Cancel`, whatever the generator
/// produced. A registration is thus acted on at the next token boundary,
/// never mid-fragment, and never overtaken by a fragment.
pub proof fn lemma_registered_id_cancels(
    reg: CancellationRegistry,
    current: u64,
    event: InferenceEvent,
)
    requires
        reg@.contains(current),
    ensures
        event_outcome(current, reg@, event) is Cancel,
{
}

impl Request {
    /// One step of the worker's per-token callback, run synchronously
    /// inside the generator: drains the cancellation registry, and either
    /// aborts this generation or publishes the fragment. A failed publish
    /// (the consumer is gone) aborts with a described failure; it is never
    /// retried. Whatever arrives concurrently in the registry, an
    /// end-of-output event always ends as `Cancelled`, and only a fragment
    /// event can continue the generation.
    pub fn handle_generator_event(
        &self,
        cancellations: &CancellationReceiver,
        event: InferenceEvent,
    ) -> (r: Result<(), GenerationError>)
        ensures
            event is EndOfText ==> r == Err::<(), GenerationError>(GenerationError::Cancelled),
            r is Ok ==> event is Fragment,
            r matches Err(e) ==> e is Cancelled || (e matches GenerationError::Custom(m) && m@
                == "Failed to send token to channel."@),
    {
        let drained = cancellations.drain();
        match decide_event(self.message_id, &drained, event) {
            EventAction::Cancel => Err(GenerationError::Cancelled),
            EventAction::Publish(f) => {
                if self.tok_stream_tx.publish(Token::Token(f)) {
                    Ok(())
                } else {
                    Err(GenerationError::custom("Failed to send token to channel."))
                }
            },
        }
    }

    /// Reports how one request's generation ended: a failure becomes the
    /// terminal error token on the request's stream; a success needs no
    /// terminal token, the stream simply ends. Failure to deliver the
    /// terminal token is reported to the caller and never poisons the
    /// worker loop.
    pub fn report_outcome(&self, outcome: Result<(), GenerationError>) -> (delivered: bool)
        ensures
            outcome is Ok ==> delivered,
    {
        match outcome {
            Ok(()) => true,
            Err(e) => self.tok_stream_tx.publish(Token::Error(e)),
        }
    }
}

} // verus!
