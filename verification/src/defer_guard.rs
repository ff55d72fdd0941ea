//! Rollback on cancellation.
use crate::polled::{poll_once, PollStep, Polled};
use std::future::Future;
use std::task::Context;
use vstd::prelude::*;

verus! {

/// A future coupled with a rollback closure.
///
/// The closure runs if the guard is dropped before the future completes, and
/// never otherwise.
pub struct DeferGuard<F, C> where F: Future, C: FnOnce() {
    inner_future: F,
    on_cancel: Option<C>,
    is_completed: bool,
}

/// What a [`DeferGuard`] holds: its future, the rollback closure that is still
/// armed, and whether the future has completed.
pub struct DeferState<F, C> {
    pub inner: F,
    pub hook: Option<C>,
    pub completed: bool,
}

impl<F, C: FnOnce()> DeferState<F, C> {
    /// The state of a guard that was not polled yet.
    pub open spec fn armed(future: F, hook: C) -> Self {
        DeferState { inner: future, hook: Some(hook), completed: false }
    }

    /// The closure is armed exactly as long as the future has not completed, and
    /// it can be called.
    pub open spec fn wf(self) -> bool {
        &&& self.hook is None <==> self.completed
        &&& self.hook matches Some(hook) ==> hook.requires(())
    }

    /// The state after a poll that left the future as `inner`.
    pub open spec fn after_poll(self, inner: F, ready: bool) -> Self {
        DeferState {
            inner,
            hook: if ready {
                None
            } else {
                self.hook
            },
            completed: ready,
        }
    }

    /// The state after all polls of `history`, the first one first.
    pub open spec fn after_polls(self, history: Seq<PollStep<F>>) -> Self
        decreases history.len(),
    {
        if history.len() == 0 {
            self
        } else {
            self.after_polls(history.drop_last()).after_poll(
                history.last().inner,
                history.last().ready,
            )
        }
    }

    /// The closure that a poll in this state disarms and hands out, uncalled.
    pub open spec fn disarmed(self, ready: bool) -> Option<C> {
        if ready {
            self.hook
        } else {
            None
        }
    }

    /// The closure that runs if the guard is dropped in this state.
    pub open spec fn rollback(self) -> Option<C> {
        if self.completed {
            None
        } else {
            self.hook
        }
    }
}

impl<F: Future, C: FnOnce()> View for DeferGuard<F, C> {
    type V = DeferState<F, C>;

    closed spec fn view(&self) -> DeferState<F, C> {
        DeferState {
            inner: self.inner_future,
            hook: self.on_cancel,
            completed: self.is_completed,
        }
    }
}

impl<F: Future, C: FnOnce()> DeferGuard<F, C> {
    /// The closure is armed exactly as long as the future has not completed.
    pub open spec fn wf(&self) -> bool {
        self@.wf()
    }

    /// Creates a guard from a future and a rollback closure.
    pub fn new(future: F, cancel_hook: C) -> (guard: Self)
        requires
            cancel_hook.requires(()),
        ensures
            guard.wf(),
            guard@ == DeferState::armed(future, cancel_hook),
            guard@.inner == future,
            guard@.hook == Some(cancel_hook),
            !guard@.completed,
    {
        DeferGuard { inner_future: future, on_cancel: Some(cancel_hook), is_completed: false }
    }

    /// Whether the future has completed. A guard whose future has completed must
    /// not be polled again.
    pub fn is_completed(&self) -> (completed: bool)
        ensures
            completed == self@.completed,
    {
        self.is_completed
    }

    /// Takes note of what a poll of the future returned, and returns it. The
    /// output of the future disarms the rollback closure, which is handed out
    /// uncalled.
    pub fn settle(&mut self, polled: Polled<F::Output>) -> (settled: (
        Polled<F::Output>,
        Option<C>,
    ))
        requires
            old(self).wf(),
            !old(self)@.completed,
        ensures
            final(self).wf(),
            settled.0 == polled,
            settled.1 == old(self)@.disarmed(polled is Ready),
            final(self)@ == old(self)@.after_poll(old(self)@.inner, polled is Ready),
            final(self)@.inner == old(self)@.inner,
            final(self)@.completed <==> polled is Ready,
            polled is Ready ==> settled.1 == old(self)@.hook && final(self)@.hook is None,
            polled is Pending ==> settled.1 is None && final(self)@.hook == old(self)@.hook,
    {
        match polled {
            Polled::Ready(output) => {
                self.is_completed = true;
                let disarmed = self.on_cancel.take();
                (Polled::Ready(output), disarmed)
            },
            Polled::Pending => (Polled::Pending, None),
        }
    }

    /// Ends the guard's life. If the future has not completed, the rollback
    /// closure runs. Returns whether it did, and the future, which was still alive
    /// then and is dropped by the caller.
    pub fn drop(self) -> (ended: (bool, F))
        requires
            self.wf(),
        ensures
            ended.1 == self@.inner,
            ended.0 <==> self@.rollback() is Some,
            self@.rollback() matches Some(hook) ==> hook.ensures((), ()),
            ended.0 <==> !self@.completed,
            self@.hook matches Some(hook) ==> hook.ensures((), ()),
    {
        if !self.is_completed {
            if let Some(rollback_logic) = self.on_cancel {
                rollback_logic();
                return (true, self.inner_future);
            }
        }
        (false, self.inner_future)
    }
}

impl<F: Future + Unpin, C: FnOnce()> DeferGuard<F, C> {
    /// Polls the future once and returns what the poll returned. If the future has
    /// completed, the rollback closure is disarmed and handed out uncalled, for the
    /// caller to drop.
    pub fn poll(&mut self, cx: &mut Context<'_>) -> (out: (Polled<F::Output>, Option<C>))
        requires
            old(self).wf(),
            !old(self)@.completed,
        ensures
            final(self).wf(),
            exists|i: &mut F, c: &mut Context<'_>|
                {
                    &&& *i == old(self)@.inner
                    &&& *c == *old(cx)
                    &&& *final(i) == final(self)@.inner
                    &&& *final(c) == *final(cx)
                    &&& #[trigger] call_ensures(crate::polled::poll_future::<F>, (i, c), out.0)
                },
            out.1 == old(self)@.disarmed(out.0 is Ready),
            final(self)@ == old(self)@.after_poll(final(self)@.inner, out.0 is Ready),
            final(self)@.completed <==> out.0 is Ready,
            out.0 is Ready ==> out.1 == old(self)@.hook && final(self)@.hook is None,
            out.0 is Pending ==> out.1 is None && final(self)@.hook == old(self)@.hook,
    {
        let polled = poll_once(&mut self.inner_future, cx);
        self.settle(polled)
    }
}

/// However a guard is polled, its rollback closure meets one end: if no poll was
/// ready, dropping the guard runs it; if the last poll was ready, that poll handed
/// it out uncalled, and dropping the guard runs nothing.
///
/// The contract of [`DeferGuard::poll`] supplies each step: the future as its one
/// poll left it, and whether that poll was ready.
pub proof fn law_rollback_runs_unless_ready<F, C: FnOnce()>(
    future: F,
    hook: C,
    history: Seq<PollStep<F>>,
)
    requires
        hook.requires(()),
        crate::polled::stops_when_ready(history),
    ensures
        DeferState::armed(future, hook).after_polls(history).wf(),
        DeferState::armed(future, hook).after_polls(history).completed
            <==> crate::polled::reached_ready(history),
        DeferState::armed(future, hook).after_polls(history).rollback() == (
        if crate::polled::reached_ready(history) {
            None::<C>
        } else {
            Some(hook)
        }),
        crate::polled::reached_ready(history) ==> DeferState::armed(future, hook).after_polls(
            history.drop_last(),
        ).disarmed(history.last().ready) == Some(hook),
    decreases history.len(),
{
    if history.len() > 0 {
        crate::polled::lemma_ready_only_at_the_end(history);
        law_rollback_runs_unless_ready(future, hook, history.drop_last());
    }
}

/// A whole life of a guard, call by call: `created` is made from `future` and `hook`,
/// polled any number of times, though not after it was ready, which leaves `end`, and
/// dropped.
///
/// A poll that is pending hands out no closure. If the last poll was ready, it handed out the closure
/// that the guard was created with, uncalled, and the drop ran nothing; otherwise the
/// drop ran that closure. The drop hands back the future as the last poll left it.
pub proof fn law_life_of_a_guard<F: Future + Unpin, C: FnOnce()>(
    future: F,
    hook: C,
    created: DeferGuard<F, C>,
    calls: Seq<&mut DeferGuard<F, C>>,
    contexts: Seq<&mut Context<'_>>,
    outs: Seq<(Polled<F::Output>, Option<C>)>,
    end: DeferGuard<F, C>,
    ended: (bool, F),
)
    requires
        call_ensures(DeferGuard::<F, C>::new, (future, hook), created),
        calls.len() == outs.len(),
        contexts.len() == outs.len(),
        forall|k: int|
            0 <= k < outs.len() ==> call_ensures(
                DeferGuard::<F, C>::poll,
                (calls[k], contexts[k]),
                #[trigger] outs[k],
            ),
        outs.len() == 0 ==> end == created,
        outs.len() > 0 ==> *calls[0] == created && *final(calls[outs.len() - 1]) == end,
        forall|k: int| 0 < k < outs.len() ==> *(#[trigger] calls[k]) == *final(calls[k - 1]),
        forall|k: int| 0 <= k < outs.len() - 1 ==> (#[trigger] outs[k]).0 is Pending,
        call_ensures(DeferGuard::<F, C>::drop, (end,), ended),
    ensures
        forall|k: int|
            0 <= k < outs.len() && (#[trigger] outs[k]).0 is Pending ==> outs[k].1 is None,
        outs.len() > 0 && outs.last().0 is Ready ==> outs.last().1 == Some(hook) && !ended.0,
        outs.len() == 0 || outs.last().0 is Pending ==> hook.ensures((), ()) && ended.0,
        outs.len() == 0 ==> ended.1 == future,
        outs.len() > 0 ==> ended.1 == final(calls[outs.len() - 1])@.inner,
{
    assert forall|k: int| 0 <= k < outs.len() && (#[trigger] outs[k]).0 is Pending implies outs[k].1
        is None by {
        let out = outs[k];
        assert(call_ensures(DeferGuard::<F, C>::poll, (calls[k], contexts[k]), out));
    }
    if outs.len() > 0 {
        lemma_guard_stays_armed(future, hook, created, calls, contexts, outs, outs.len() - 1);
    }
}

/// Before its poll at index `n`, a guard that was not ready yet holds the closure that it
/// was created with, and that poll keeps it or hands it out.
proof fn lemma_guard_stays_armed<F: Future + Unpin, C: FnOnce()>(
    future: F,
    hook: C,
    created: DeferGuard<F, C>,
    calls: Seq<&mut DeferGuard<F, C>>,
    contexts: Seq<&mut Context<'_>>,
    outs: Seq<(Polled<F::Output>, Option<C>)>,
    n: int,
)
    requires
        call_ensures(DeferGuard::<F, C>::new, (future, hook), created),
        calls.len() == outs.len(),
        contexts.len() == outs.len(),
        forall|k: int|
            0 <= k < outs.len() ==> call_ensures(
                DeferGuard::<F, C>::poll,
                (calls[k], contexts[k]),
                #[trigger] outs[k],
            ),
        outs.len() > 0 ==> *calls[0] == created,
        forall|k: int| 0 < k < outs.len() ==> *(#[trigger] calls[k]) == *final(calls[k - 1]),
        forall|k: int| 0 <= k < outs.len() - 1 ==> (#[trigger] outs[k]).0 is Pending,
        0 <= n < outs.len(),
    ensures
        calls[n]@.hook == Some(hook),
        final(calls[n])@.completed <==> outs[n].0 is Ready,
        outs[n].0 is Pending ==> final(calls[n])@.hook == Some(hook),
        outs[n].0 is Ready ==> outs[n].1 == Some(hook),
    decreases n,
{
    let out = outs[n];
    assert(call_ensures(DeferGuard::<F, C>::poll, (calls[n], contexts[n]), out));
    if n > 0 {
        lemma_guard_stays_armed(future, hook, created, calls, contexts, outs, n - 1);
        assert(*calls[n] == *final(calls[n - 1]));
        assert(outs[n - 1].0 is Pending);
    }
}

} // verus!
