//! The cancellation registry as an exactly specified value: a bag of
//! pending identifiers with only two operations, append and drain-all.
//! There is no targeted removal and no membership test that leaves the
//! entry in place. The concurrent feed of the running pipeline is the
//! unbounded cancellation channel (see `channel`), whose drained batches
//! behave as this registry specifies for the identifiers they carry.

use vstd::prelude::*;

verus! {

/// The set of pending cancellation identifiers. Membership only
/// approximates "should this request be cancelled": an identifier may be
/// registered before its request exists, after it finished, or may collide
/// with an unrelated later request that reuses it.
pub struct CancellationRegistry {
    pending: Vec<u64>,
}

impl View for CancellationRegistry {
    type V = Seq<u64>;

    closed spec fn view(&self) -> Seq<u64> {
        self.pending@
    }
}

impl CancellationRegistry {
    pub fn new() -> (r: CancellationRegistry)
        ensures
            r@ == Seq::<u64>::empty(),
    {
        CancellationRegistry { pending: Vec::new() }
    }

    /// Appends an identifier: fire-and-forget, never fails, never removes
    /// anything.
    pub fn register(&mut self, id: u64)
        ensures
            final(self)@ == old(self)@.push(id),
    {
        self.pending.push(id);
    }

    /// Atomically empties the registry and yields everything that was
    /// pending, in registration order. Draining an empty registry yields
    /// an empty batch and has no effect: draining is idempotent.
    pub fn drain(&mut self) -> (drained: Vec<u64>)
        ensures
            drained@ == old(self)@,
            final(self)@ == Seq::<u64>::empty(),
            old(self)@.len() == 0 ==> final(self)@ == old(self)@,
    {
        let mut taken: Vec<u64> = Vec::new();
        core::mem::swap(&mut self.pending, &mut taken);
        taken
    }
}

} // verus!
