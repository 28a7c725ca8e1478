//! The admission discipline of the request queue, stated as an explicit
//! state machine: one slot for a queued request, one for the running one.
//! The runtime transport with this discipline is the bounded channel of
//! capacity one (see `channel`); a blocked submit is a submit transition
//! that has not yet fired.

use vstd::prelude::*;

verus! {

/// The two places a request can occupy: at most one queued in the
/// admission slot and at most one being generated by the worker.
pub struct AdmissionState {
    /// The request sitting in the queue's single slot, by identifier.
    pub queued: Option<u64>,
    /// The request the worker is generating, by identifier.
    pub running: Option<u64>,
}

impl AdmissionState {
    /// How many requests are in the system at this instant.
    pub open spec fn in_system(self) -> nat {
        (if self.queued is Some {
            1nat
        } else {
            0nat
        }) + (if self.running is Some {
            1nat
        } else {
            0nat
        })
    }

    /// A submit can fire only while the single slot is free.
    pub open spec fn can_submit(self) -> bool {
        self.queued is None
    }

    /// The worker takes the next request only between generations.
    pub open spec fn can_take(self) -> bool {
        self.queued is Some && self.running is None
    }

    pub fn new() -> (r: AdmissionState)
        ensures
            r.queued is None,
            r.running is None,
    {
        AdmissionState { queued: None, running: None }
    }

    /// A producer's submission is admitted into the free slot.
    pub fn submit(&mut self, id: u64)
        requires
            old(self).can_submit(),
        ensures
            final(self).queued == Some(id),
            final(self).running == old(self).running,
    {
        self.queued = Some(id);
    }

    /// The worker takes the queued request and starts generating it;
    /// requests leave the slot strictly in submission order.
    pub fn take(&mut self) -> (id: u64)
        requires
            old(self).can_take(),
        ensures
            old(self).queued == Some(id),
            final(self).running == Some(id),
            final(self).queued is None,
    {
        let id = self.queued.unwrap();
        self.queued = None;
        self.running = Some(id);
        id
    }

    /// The running generation ended, in any of its terminal states.
    pub fn complete(&mut self)
        requires
            old(self).running is Some,
        ensures
            final(self).running is None,
            final(self).queued == old(self).queued,
    {
        self.running = None;
    }

    /// At most two requests are ever in the system at once: one running
    /// and one queued.
    pub proof fn lemma_at_most_two_in_system(self)
        ensures
            self.in_system() <= 2,
    {
    }

    /// With one request running and one queued, a third submission cannot
    /// fire and neither can the worker take the queued one: nothing moves
    /// until the running request completes, so the third producer stays
    /// blocked until the first generation ends.
    pub proof fn lemma_third_submission_blocks(self)
        requires
            self.in_system() == 2,
        ensures
            !self.can_submit(),
            !self.can_take(),
    {
    }
}

} // verus!
