//! The adding side of a shared counter.
use std::sync::atomic::Ordering;
use std::sync::Arc;
use vstd::prelude::*;

verus! {

/// An addition that was made to a counter: the amount, and which numbers the call that
/// made it may have found in the counter.
#[verifier::ext_equal]
pub struct Addition {
    pub amount: usize,
    pub finds: spec_fn(usize) -> bool,
}

/// The adding side of a counter that is shared with others.
///
/// The type of the counter is left open, so that nothing here can touch it but a
/// function that is handed in, and every call of such a function is entered in a log.
/// So the log says all that the holder of this side has done to the counter.
pub struct PollCounter<K> {
    shared: Arc<K>,
    additions: Ghost<Seq<Addition>>,
}

impl<K> PollCounter<K> {
    /// The shared counter: the counter itself, not the number in it.
    pub closed spec fn shared(&self) -> Arc<K> {
        self.shared
    }

    /// The additions that were made, the first one first.
    pub closed spec fn additions(&self) -> Seq<Addition> {
        self.additions@
    }

    /// The adding side of `shared`.
    pub fn new(shared: Arc<K>) -> (counter: Self)
        ensures
            counter.shared() == shared,
            counter.additions() == Seq::<Addition>::empty(),
    {
        PollCounter { shared, additions: Ghost(Seq::empty()) }
    }

    /// Calls `addition` once, on the counter with `amount` and `order`, enters the call in
    /// the log, and returns what the call returned.
    pub fn add_with<A: FnOnce(&K, usize, Ordering) -> usize>(
        &mut self,
        addition: A,
        amount: usize,
        order: Ordering,
    ) -> (previous: usize)
        requires
            call_requires(addition, (&*old(self).shared(), amount, order)),
        ensures
            call_ensures(addition, (&*old(self).shared(), amount, order), previous),
            final(self).shared() == old(self).shared(),
            final(self).additions() == old(self).additions().push(
                Addition {
                    amount,
                    finds: |found: usize|
                        call_ensures(addition, (&*old(self).shared(), amount, order), found),
                },
            ),
    {
        self.additions = Ghost(
            self.additions@.push(
                Addition {
                    amount,
                    finds: |found: usize|
                        call_ensures(addition, (&*old(self).shared(), amount, order), found),
                },
            ),
        );
        addition(&*self.shared, amount, order)
    }
}

/// The sum of the amounts in `additions`.
pub open spec fn total(additions: Seq<Addition>) -> nat
    decreases additions.len(),
{
    if additions.len() == 0 {
        0
    } else {
        total(additions.drop_last()) + additions.last().amount as nat
    }
}

} // verus!
