//! Utilities for cancellation-safety tests.
//!
//! - [`DropSimulation`] decides the steps and the result of racing a future
//!   against a deadline, which gives `None` if the future loses.
//! - [`TrackPolls`] counts how many times a future is polled.
use crate::poll_counter::{Addition, PollCounter};
use crate::polled::{poll_once, PollStep, Polled};
use std::future::Future;
use std::sync::atomic::{AtomicUsize, Ordering};
use std::sync::Arc;
use std::task::Context;
use std::time::Duration;
use vstd::prelude::*;

verus! {

/// The count after one more poll. It wraps around, as an atomic counter does.
pub open spec fn count_after(polls: usize) -> usize {
    if polls == usize::MAX {
        0
    } else {
        (polls + 1) as usize
    }
}

/// Adding one to `counter` may find the number `previous` in it.
pub open spec fn increment_gives(counter: AtomicUsize, previous: usize) -> bool {
    call_ensures(AtomicUsize::fetch_add, (&counter, 1usize, Ordering::SeqCst), previous)
}

/// The addition of one to `counter`, with `AtomicUsize::fetch_add`.
pub open spec fn addition_of_one(counter: Arc<AtomicUsize>) -> Addition {
    Addition { amount: 1, finds: |found: usize| increment_gives(*counter, found) }
}

/// A future whose polls are counted.
///
/// The count is kept in the wrapper, and in an atomic counter that is shared with
/// whoever created it.
pub struct TrackPolls<F> {
    inner: F,
    polls: usize,
    counter: PollCounter<AtomicUsize>,
}

/// What a [`TrackPolls`] holds: its future, the number of polls so far, the shared
/// counter, and what it has done to that counter. The counter stands for itself,
/// not for the number in it, which its other owners may change at any time.
pub struct PollCount<F> {
    pub inner: F,
    pub polls: usize,
    pub counter: Arc<AtomicUsize>,
    pub additions: Seq<Addition>,
}

impl<F> PollCount<F> {
    /// The state of a wrapper that was not polled yet.
    pub open spec fn unpolled(future: F, counter: Arc<AtomicUsize>) -> Self {
        PollCount { inner: future, polls: 0, counter, additions: Seq::empty() }
    }

    /// The state after a poll that left the future as `inner`.
    pub open spec fn after_poll(self, inner: F) -> Self {
        PollCount {
            inner,
            polls: count_after(self.polls),
            counter: self.counter,
            additions: self.additions.push(addition_of_one(self.counter)),
        }
    }

    /// The state after all polls of `history`, the first one first.
    pub open spec fn after_polls(self, history: Seq<PollStep<F>>) -> Self
        decreases history.len(),
    {
        if history.len() == 0 {
            self
        } else {
            self.after_polls(history.drop_last()).after_poll(history.last().inner)
        }
    }
}

impl<F> View for TrackPolls<F> {
    type V = PollCount<F>;

    closed spec fn view(&self) -> PollCount<F> {
        PollCount {
            inner: self.inner,
            polls: self.polls,
            counter: self.counter.shared(),
            additions: self.counter.additions(),
        }
    }
}

impl<F> TrackPolls<F> {
    /// Wraps a future, and returns the counter that every poll increments.
    ///
    /// The counter is made with zero in it. The number that is in it later depends
    /// on its other owners too, so the contract of [`TrackPolls::poll`] says what is
    /// added to it, and the number of polls is the one that the wrapper itself keeps.
    pub fn new(future: F) -> (wrapped: (Self, Arc<AtomicUsize>))
        ensures
            wrapped.0@ == PollCount::unpolled(future, wrapped.1),
            wrapped.0@.inner == future,
            wrapped.0@.polls == 0,
            wrapped.0@.counter == wrapped.1,
            wrapped.0@.additions == Seq::<Addition>::empty(),
            call_ensures(AtomicUsize::new, (0usize,), *wrapped.1),
    {
        let counter = Arc::new(AtomicUsize::new(0));
        (
            TrackPolls { inner: future, polls: 0, counter: PollCounter::new(counter.clone()) },
            counter,
        )
    }

    /// The number of polls so far.
    pub fn polls(&self) -> (polls: usize)
        ensures
            polls == self@.polls,
    {
        self.polls
    }
}

impl<F: Future + Unpin> TrackPolls<F> {
    /// Counts a poll, in the wrapper and in the shared counter, polls the future once
    /// and returns what the poll returned. All that is done to the shared counter is
    /// that one is added to it.
    pub fn poll(&mut self, cx: &mut Context<'_>) -> (out: Polled<F::Output>)
        ensures
            exists|previous: usize| #[trigger] increment_gives(*old(self)@.counter, previous),
            exists|i: &mut F, c: &mut Context<'_>|
                {
                    &&& *i == old(self)@.inner
                    &&& *c == *old(cx)
                    &&& *final(i) == final(self)@.inner
                    &&& *final(c) == *final(cx)
                    &&& #[trigger] call_ensures(crate::polled::poll_future::<F>, (i, c), out)
                },
            final(self)@ == old(self)@.after_poll(final(self)@.inner),
            final(self)@.polls == (if old(self)@.polls == usize::MAX {
                0
            } else {
                old(self)@.polls + 1
            }),
            final(self)@.counter == old(self)@.counter,
            final(self)@.additions == old(self)@.additions.push(
                addition_of_one(old(self)@.counter),
            ),
    {
        self.polls = self.polls.wrapping_add(1);
        let previous: usize = self.counter.add_with(AtomicUsize::fetch_add, 1, Ordering::SeqCst);
        assert(increment_gives(*old(self)@.counter, previous));
        assert(self@.additions.last().finds =~= addition_of_one(old(self)@.counter).finds);
        assert(self@.additions =~= old(self)@.additions.push(addition_of_one(old(self)@.counter)));
        poll_once(&mut self.inner, cx)
    }
}

/// However a wrapper is polled, it has counted each poll once, as far as its count
/// reaches, and still shares the counter it was created with. The contract of
/// [`TrackPolls::poll`] supplies each step: the future as its one poll left it.
pub proof fn law_every_poll_is_counted_once<F>(
    future: F,
    counter: Arc<AtomicUsize>,
    history: Seq<PollStep<F>>,
)
    ensures
        PollCount::unpolled(future, counter).after_polls(history).polls == history.len() % (
        usize::MAX as nat + 1),
        PollCount::unpolled(future, counter).after_polls(history).counter == counter,
    decreases history.len(),
{
    let m = usize::MAX as nat + 1;
    if history.len() == 0 {
        vstd::arithmetic::div_mod::lemma_small_mod(0, m);
    } else {
        let k = (history.len() - 1) as nat;
        law_every_poll_is_counted_once(future, counter, history.drop_last());
        vstd::arithmetic::div_mod::lemma_add_mod_noop(k as int, 1, m as int);
        vstd::arithmetic::div_mod::lemma_small_mod(1, m);
        if k % m == m - 1 {
            vstd::arithmetic::div_mod::lemma_mod_self_0(m as int);
        } else {
            vstd::arithmetic::div_mod::lemma_small_mod((k % m + 1) as nat, m);
        }
    }
}

/// What the driver of a [`DropSimulation`] does next.
pub enum SimulationAction {
    /// Yield to the runtime once.
    YieldNow,
    /// Race the future against a sleep of `duration`.
    Race { duration: Duration },
}

/// How a race between a future and its deadline ended.
pub enum RaceOutcome<T> {
    /// The future was first, with this output.
    Finished(T),
    /// The deadline was first, and the future was dropped.
    DeadlineElapsed,
}

/// A future's sudden drop after a deadline: yields to the runtime once, then races
/// the future against a sleep.
pub struct DropSimulation {
    duration: Duration,
    yielded: bool,
}

impl DropSimulation {
    /// How long the future has.
    pub closed spec fn duration(&self) -> Duration {
        self.duration
    }

    /// Whether the driver has yielded to the runtime.
    pub closed spec fn has_yielded(&self) -> bool {
        self.yielded
    }

    /// Begins a simulation in which the future has `duration` to finish.
    pub fn new(duration: Duration) -> (simulation: Self)
        ensures
            simulation.duration() == duration,
            !simulation.has_yielded(),
    {
        DropSimulation { duration, yielded: false }
    }

    /// What to do next.
    pub fn next_action(&self) -> (action: SimulationAction)
        ensures
            action == (if self.has_yielded() {
                SimulationAction::Race { duration: self.duration() }
            } else {
                SimulationAction::YieldNow
            }),
    {
        if self.yielded {
            SimulationAction::Race { duration: self.duration }
        } else {
            SimulationAction::YieldNow
        }
    }

    /// Takes note that the driver has yielded to the runtime.
    pub fn on_yielded(&mut self)
        ensures
            final(self).has_yielded(),
            final(self).duration() == old(self).duration(),
    {
        self.yielded = true;
    }

    /// Ends the simulation: the output of the future, or `None` if it lost the race.
    pub fn on_race<T>(self, outcome: RaceOutcome<T>) -> (result: Option<T>)
        requires
            self.has_yielded(),
        ensures
            result == (match outcome {
                RaceOutcome::Finished(output) => Some(output),
                RaceOutcome::DeadlineElapsed => None,
            }),
    {
        match outcome {
            RaceOutcome::Finished(output) => Some(output),
            RaceOutcome::DeadlineElapsed => None,
        }
    }
}

/// A whole life of a wrapper, call by call: `created` is the wrapper that is made from
/// `future`, with its shared counter, and polling it any number of times leaves `end`.
///
/// The counter is made with zero in it, and all that the wrapper does to it is to add one
/// per poll, with `AtomicUsize::fetch_add`: what is added comes to the number of polls.
pub proof fn law_life_of_a_counted_future<F: Future + Unpin>(
    future: F,
    created: (TrackPolls<F>, Arc<AtomicUsize>),
    calls: Seq<&mut TrackPolls<F>>,
    contexts: Seq<&mut Context<'_>>,
    outs: Seq<Polled<F::Output>>,
    end: TrackPolls<F>,
)
    requires
        call_ensures(TrackPolls::<F>::new, (future,), created),
        calls.len() == outs.len(),
        contexts.len() == outs.len(),
        forall|k: int|
            0 <= k < outs.len() ==> call_ensures(
                TrackPolls::<F>::poll,
                (calls[k], contexts[k]),
                #[trigger] outs[k],
            ),
        outs.len() == 0 ==> end == created.0,
        outs.len() > 0 ==> *calls[0] == created.0 && *final(calls[outs.len() - 1]) == end,
        forall|k: int| 0 < k < outs.len() ==> *(#[trigger] calls[k]) == *final(calls[k - 1]),
    ensures
        call_ensures(AtomicUsize::new, (0usize,), *created.1),
        end@.counter == created.1,
        end@.additions.len() == outs.len(),
        forall|k: int|
            0 <= k < outs.len() ==> #[trigger] end@.additions[k] == (Addition {
                amount: 1,
                finds: |found: usize|
                    call_ensures(
                        AtomicUsize::fetch_add,
                        (&*created.1, 1usize, Ordering::SeqCst),
                        found,
                    ),
            }),
        crate::poll_counter::total(end@.additions) == outs.len(),
{
    lemma_additions(future, created, calls, contexts, outs, outs.len());
    let one = Addition {
        amount: 1,
        finds: |found: usize|
            call_ensures(
                AtomicUsize::fetch_add,
                (&*created.1, 1usize, Ordering::SeqCst),
                found,
            ),
    };
    assert(one.finds =~= addition_of_one(created.1).finds);
    assert(one == addition_of_one(created.1));
}

/// What a wrapper has counted after `n` polls.
proof fn lemma_additions<F: Future + Unpin>(
    future: F,
    created: (TrackPolls<F>, Arc<AtomicUsize>),
    calls: Seq<&mut TrackPolls<F>>,
    contexts: Seq<&mut Context<'_>>,
    outs: Seq<Polled<F::Output>>,
    n: nat,
)
    requires
        call_ensures(TrackPolls::<F>::new, (future,), created),
        calls.len() == outs.len(),
        contexts.len() == outs.len(),
        forall|k: int|
            0 <= k < outs.len() ==> call_ensures(
                TrackPolls::<F>::poll,
                (calls[k], contexts[k]),
                #[trigger] outs[k],
            ),
        outs.len() > 0 ==> *calls[0] == created.0,
        forall|k: int| 0 < k < outs.len() ==> *(#[trigger] calls[k]) == *final(calls[k - 1]),
        n <= outs.len(),
    ensures
        n == 0 ==> created.0@.additions == Seq::<Addition>::empty(),
        n == 0 ==> created.0@.counter == created.1,
        n == 0 ==> created.0@.polls == 0,
        n > 0 ==> final(calls[n - 1])@.counter == created.1,
        n > 0 ==> final(calls[n - 1])@.additions == Seq::new(
            n,
            |k: int| addition_of_one(created.1),
        ),
        n > 0 ==> crate::poll_counter::total(final(calls[n - 1])@.additions) == n,
        n > 0 ==> final(calls[n - 1])@.polls == n % (usize::MAX as nat + 1),
    decreases n,
{
    let m = usize::MAX as nat + 1;
    if n > 0 {
        let k = (n - 1) as nat;
        lemma_additions(future, created, calls, contexts, outs, k);
        let out = outs[n - 1];
        assert(call_ensures(TrackPolls::<F>::poll, (calls[n - 1], contexts[n - 1]), out));
        let before = calls[n - 1]@.additions;
        if n > 1 {
            assert(*calls[n - 1] == *final(calls[n - 2]));
        }
        assert(before =~= Seq::new(k, |j: int| addition_of_one(created.1)));
        assert(crate::poll_counter::total(before) == k);
        assert(before.push(addition_of_one(created.1)).drop_last() =~= before);
        vstd::arithmetic::div_mod::lemma_small_mod(0, m);
        vstd::arithmetic::div_mod::lemma_add_mod_noop(k as int, 1, m as int);
        vstd::arithmetic::div_mod::lemma_small_mod(1, m);
        if k % m == m - 1 {
            vstd::arithmetic::div_mod::lemma_mod_self_0(m as int);
        } else {
            vstd::arithmetic::div_mod::lemma_small_mod((k % m + 1) as nat, m);
        }
    }
}

/// After any number of polls, asking a wrapper for its count gives that number, as far as
/// the count reaches.
pub proof fn law_count_is_the_number_of_polls<F: Future + Unpin>(
    future: F,
    created: (TrackPolls<F>, Arc<AtomicUsize>),
    calls: Seq<&mut TrackPolls<F>>,
    contexts: Seq<&mut Context<'_>>,
    outs: Seq<Polled<F::Output>>,
    end: TrackPolls<F>,
    count: usize,
)
    requires
        call_ensures(TrackPolls::<F>::new, (future,), created),
        calls.len() == outs.len(),
        contexts.len() == outs.len(),
        forall|k: int|
            0 <= k < outs.len() ==> call_ensures(
                TrackPolls::<F>::poll,
                (calls[k], contexts[k]),
                #[trigger] outs[k],
            ),
        outs.len() == 0 ==> end == created.0,
        outs.len() > 0 ==> *calls[0] == created.0 && *final(calls[outs.len() - 1]) == end,
        forall|k: int| 0 < k < outs.len() ==> *(#[trigger] calls[k]) == *final(calls[k - 1]),
        call_ensures(TrackPolls::<F>::polls, (&end,), count),
    ensures
        count == outs.len() % (usize::MAX as nat + 1),
{
    lemma_additions(future, created, calls, contexts, outs, outs.len());
    vstd::arithmetic::div_mod::lemma_small_mod(0, usize::MAX as nat + 1);
}

} // verus!
