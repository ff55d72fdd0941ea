//! Completion in the background.
use crate::polled::{poll_once, poll_step, PollStep, Polled};
use std::future::{poll_fn, Future};
use std::task::{Context, Poll};
use tokio::runtime::{Handle, TryCurrentError};
use tokio::task::Id as TaskId;
use vstd::prelude::*;

verus! {

/// A handle to a Tokio runtime, carried through unread.
#[verifier::external_type_specification]
#[verifier::external_body]
pub struct ExHandle(Handle);

/// The error of [`Handle::try_current`], carried through unread.
#[verifier::external_type_specification]
#[verifier::external_body]
pub struct ExTryCurrentError(TryCurrentError);

/// `tokio::runtime::Handle::try_current` returns a handle to the runtime that the
/// calling thread is in, or an error. It never panics. Which of the two it
/// returns, and which runtime, depends on the calling thread, so nothing is
/// claimed of the result.
pub assume_specification[ Handle::try_current ]() -> Result<Handle, TryCurrentError>;

/// The identifier of a spawned task, carried through unread.
#[verifier::external_type_specification]
#[verifier::external_body]
pub struct ExTaskId(TaskId);

/// Spawns, with `tokio::runtime::Handle::spawn` on the runtime of `handle`, a task
/// that polls `future` until it completes and discards its output, and detaches the
/// task. Returns the identifier of the task. Each step of the task is one call of
/// [`poll_step`], which decides whether the task is done.
///
/// Nothing is claimed of the identifier, which differs from call to call, nor
/// that the runtime, which may be shut down first, completes the future.
#[verifier::external_body]
fn spawn_detached<F>(handle: &Handle, future: F) -> (task: TaskId) where
    F: Future + Unpin + Send + 'static,
 {
    let mut future = future;
    let task = poll_fn(
        move |cx: &mut Context<'_>| poll_step(&mut future, cx, Poll::Ready(()), Poll::Pending),
    );
    handle.spawn(task).id()
}

/// The lookup of the current runtime may give `found`.
pub open spec fn lookup_gives(found: Result<Handle, TryCurrentError>) -> bool {
    call_ensures(Handle::try_current, (), found)
}

/// Spawning `future` on the runtime of `handle` may give the task `task`.
pub closed spec fn spawn_gives<F>(handle: Handle, future: F, task: TaskId) -> bool where
    F: Future + Unpin + Send + 'static,
 {
    call_ensures(spawn_detached::<F>, (&handle, future), task)
}

/// A future that is not abandoned when its shield is dropped.
///
/// A shield that is dropped before its future completes moves the future to a
/// background task of the current Tokio runtime. Outside any runtime the future
/// is discarded.
pub struct Shield<F> where F: Future + Send + 'static, F::Output: Send + 'static {
    inner: Option<F>,
}

/// What becomes of a shield's future when the shield is dropped.
pub enum Disposition<F> {
    /// The future had completed.
    Finished,
    /// The future is to run in the background, on the runtime of `handle`.
    Detached { handle: Handle, inner: F },
    /// There is no runtime, and the future is to be discarded.
    Discarded { inner: F },
}

/// What became of a shield's future when the shield was dropped.
pub enum Fate<F> {
    /// The future had completed.
    Finished,
    /// The future was handed to a runtime, and runs there under this identifier.
    Detached(TaskId),
    /// There was no runtime. The future is discarded with this value.
    Discarded(F),
}

/// What a shield's future comes to: `state` is the future that has not completed,
/// and `runtime` the runtime that is there.
pub open spec fn disposition<F>(state: Option<F>, runtime: Option<Handle>) -> Disposition<F> {
    match (state, runtime) {
        (None, _) => Disposition::Finished,
        (Some(inner), Some(handle)) => Disposition::Detached { handle, inner },
        (Some(inner), None) => Disposition::Discarded { inner },
    }
}

/// The future of a shield after a poll that left it as `inner`, until it has
/// completed.
pub open spec fn after_poll<F>(inner: F, ready: bool) -> Option<F> {
    if ready {
        None
    } else {
        Some(inner)
    }
}

/// What a poll that left a shield's future as `inner` hands out: the future, once
/// it has completed.
pub open spec fn finished<F>(inner: F, ready: bool) -> Option<F> {
    if ready {
        Some(inner)
    } else {
        None
    }
}

/// The future of a shield after all polls of `history`, until it has completed.
pub open spec fn after_polls<F>(future: F, history: Seq<PollStep<F>>) -> Option<F> {
    if history.len() == 0 {
        Some(future)
    } else {
        after_poll(history.last().inner, history.last().ready)
    }
}

impl<F> View for Shield<F> where F: Future + Send + 'static, F::Output: Send + 'static {
    type V = Option<F>;

    /// The future, until it has completed.
    closed spec fn view(&self) -> Option<F> {
        self.inner
    }
}

impl<F> Shield<F> where F: Future + Send + 'static, F::Output: Send + 'static {
    /// Wraps a future in a shield.
    pub fn new(future: F) -> (shield: Self)
        ensures
            shield@ == Some(future),
    {
        Shield { inner: Some(future) }
    }

    /// Whether the future has completed. A shield whose future has completed must
    /// not be polled again.
    pub fn is_completed(&self) -> (completed: bool)
        ensures
            completed == (self@ is None),
    {
        self.inner.is_none()
    }

    /// Takes note of what a poll of the future returned, and returns it. A future
    /// that has completed is handed out, for the caller to drop.
    pub fn settle(&mut self, polled: Polled<F::Output>) -> (settled: (
        Polled<F::Output>,
        Option<F>,
    ))
        requires
            old(self)@ is Some,
        ensures
            settled.0 == polled,
            settled.1 == finished(old(self)@->0, polled is Ready),
            final(self)@ == after_poll(old(self)@->0, polled is Ready),
            polled is Ready ==> settled.1 == old(self)@ && final(self)@ is None,
            polled is Pending ==> settled.1 is None && final(self)@ == old(self)@,
    {
        match polled {
            Polled::Ready(output) => {
                let finished = self.inner.take();
                (Polled::Ready(output), finished)
            },
            Polled::Pending => (Polled::Pending, None),
        }
    }

    /// Ends the shield's life where `runtime` is the runtime that is there: says
    /// what becomes of the future, and hands it out if it has not completed.
    pub fn release(self, runtime: Option<Handle>) -> (released: Disposition<F>)
        ensures
            released == disposition(self@, runtime),
            match self@ {
                None => released is Finished,
                Some(inner) => match runtime {
                    Some(handle) => released == (Disposition::Detached { handle, inner }),
                    None => released == (Disposition::Discarded { inner }),
                },
            },
    {
        match self.inner {
            Some(inner) => match runtime {
                Some(handle) => Disposition::Detached { handle, inner },
                None => Disposition::Discarded { inner },
            },
            None => Disposition::Finished,
        }
    }
}

impl<F> Shield<F> where F: Future + Unpin + Send + 'static, F::Output: Send + 'static {
    /// Polls the future once and returns what the poll returned. A future that has
    /// completed is handed out, for the caller to drop.
    pub fn poll(&mut self, cx: &mut Context<'_>) -> (out: (Polled<F::Output>, Option<F>))
        requires
            old(self)@ is Some,
        ensures
            exists|i: &mut F, c: &mut Context<'_>|
                {
                    &&& *i == old(self)@->0
                    &&& *c == *old(cx)
                    &&& final(self)@ == after_poll(*final(i), out.0 is Ready)
                    &&& *final(c) == *final(cx)
                    &&& out.1 == finished(*final(i), out.0 is Ready)
                    &&& out.0 is Ready ==> final(self)@ is None && out.1 == Some(*final(i))
                    &&& out.0 is Pending ==> final(self)@ == Some(*final(i)) && out.1 is None
                    &&& #[trigger] call_ensures(crate::polled::poll_future::<F>, (i, c), out.0)
                },
    {
        let polled = match &mut self.inner {
            Some(inner) => poll_once(inner, cx),
            None => Polled::Pending,
        };
        self.settle(polled)
    }

    /// Ends the shield's life. A future that has not completed is spawned on the
    /// current runtime; if there is none, it is handed out, to be discarded with the
    /// result.
    pub fn drop(self) -> (fate: Fate<F>)
        ensures
            fate is Finished <==> self@ is None,
            self@ matches Some(inner) ==> exists|found: Result<Handle, TryCurrentError>|
                #[trigger] lookup_gives(found) && match found {
                    Ok(handle) => fate matches Fate::Detached(task) && spawn_gives(
                        handle,
                        inner,
                        task,
                    ),
                    Err(_) => fate == Fate::Discarded(inner),
                },
    {
        if self.inner.is_none() {
            return Fate::Finished;
        }
        let found = Handle::try_current();
        assert(lookup_gives(found));
        let runtime = match found {
            Ok(handle) => Some(handle),
            Err(_) => None,
        };
        match self.release(runtime) {
            Disposition::Detached { handle, inner } => {
                let task = spawn_detached(&handle, inner);
                Fate::Detached(task)
            },
            Disposition::Discarded { inner } => Fate::Discarded(inner),
            Disposition::Finished => Fate::Finished,
        }
    }
}

/// However a shield is polled, dropping it inside a runtime hands over the future
/// as the last poll left it, or finds that it has completed: its work is neither
/// lost nor started over. A future that has completed was handed out by the last
/// poll, so that there is nothing left to spawn.
///
/// The contract of [`Shield::poll`] supplies each step: the future as its one poll
/// left it, and whether that poll was ready.
pub proof fn law_future_survives_the_drop<F>(
    future: F,
    history: Seq<PollStep<F>>,
    handle: Handle,
)
    requires
        crate::polled::stops_when_ready(history),
    ensures
        crate::polled::reached_ready(history) ==> disposition(
            after_polls(future, history),
            Some(handle),
        ) == Disposition::<F>::Finished && finished(history.last().inner, history.last().ready)
            == Some(history.last().inner),
        !crate::polled::reached_ready(history) ==> disposition(
            after_polls(future, history),
            Some(handle),
        ) == (Disposition::Detached {
            handle,
            inner: if history.len() == 0 {
                future
            } else {
                history.last().inner
            },
        }),
{
    if history.len() > 0 {
        crate::polled::lemma_ready_only_at_the_end(history);
    }
}

/// Outside any runtime a future that has not completed is discarded as the last poll
/// left it, and there is nothing to discard of one that has. The contract of [`Shield::poll`] supplies
/// each step.
pub proof fn law_future_is_discarded_without_a_runtime<F>(
    future: F,
    history: Seq<PollStep<F>>,
)
    requires
        crate::polled::stops_when_ready(history),
    ensures
        disposition(after_polls(future, history), None) == (if crate::polled::reached_ready(
            history,
        ) {
            Disposition::<F>::Finished
        } else {
            Disposition::Discarded {
                inner: if history.len() == 0 {
                    future
                } else {
                    history.last().inner
                },
            }
        }),
{
    if history.len() > 0 {
        crate::polled::lemma_ready_only_at_the_end(history);
    }
}

/// A whole life of a shield, call by call: `created` is made from `future` and polled any
/// number of times, though not after it was ready, which leaves `end`. `inside` and
/// `outside` are what releasing it gives with the runtime of `handle` and with none, and
/// `fate` what dropping it gives.
///
/// If the last poll was ready, it handed out the finished future, and nothing is left to
/// spawn or to discard. Otherwise it is one and the same future that is handed over,
/// discarded or spawned: the one that the last poll left, or the given one if there was
/// no poll.
pub proof fn law_life_of_a_shield<F>(
    future: F,
    created: Shield<F>,
    calls: Seq<&mut Shield<F>>,
    contexts: Seq<&mut Context<'_>>,
    outs: Seq<(Polled<F::Output>, Option<F>)>,
    end: Shield<F>,
    handle: Handle,
    inside: Disposition<F>,
    outside: Disposition<F>,
    fate: Fate<F>,
) where
    F: Future + Unpin + Send + 'static,
    F::Output: Send + 'static,

    requires
        call_ensures(Shield::<F>::new, (future,), created),
        calls.len() == outs.len(),
        contexts.len() == outs.len(),
        forall|k: int|
            0 <= k < outs.len() ==> call_ensures(
                Shield::<F>::poll,
                (calls[k], contexts[k]),
                #[trigger] outs[k],
            ),
        outs.len() == 0 ==> end == created,
        outs.len() > 0 ==> *calls[0] == created && *final(calls[outs.len() - 1]) == end,
        forall|k: int| 0 < k < outs.len() ==> *(#[trigger] calls[k]) == *final(calls[k - 1]),
        forall|k: int| 0 <= k < outs.len() - 1 ==> (#[trigger] outs[k]).0 is Pending,
        call_ensures(Shield::<F>::release, (end, Some(handle)), inside),
        call_ensures(Shield::<F>::release, (end, None), outside),
        call_ensures(Shield::<F>::drop, (end,), fate),
    ensures
        outs.len() > 0 && outs.last().0 is Ready ==> {
            &&& outs.last().1 is Some
            &&& inside is Finished
            &&& outside is Finished
            &&& fate is Finished
        },
        outs.len() == 0 || outs.last().0 is Pending ==> {
            &&& inside matches Disposition::Detached { handle: on, inner } && on == handle
                && outside == (Disposition::Discarded { inner })
            &&& outs.len() == 0 ==> inside->Detached_inner == future
            &&& outs.len() > 0 ==> exists|f: &mut F, c: &mut Context<'_>|
                {
                    &&& *c == *contexts[outs.len() - 1]
                    &&& *final(f) == inside->Detached_inner
                    &&& #[trigger] call_ensures(
                        crate::polled::poll_future::<F>,
                        (f, c),
                        outs[outs.len() - 1].0,
                    )
                }
            &&& match fate {
                Fate::Finished => false,
                Fate::Detached(task) => exists|on: Handle|
                    call_ensures(Handle::try_current, (), Ok(on)) && #[trigger] spawn_gives(
                        on,
                        inside->Detached_inner,
                        task,
                    ),
                Fate::Discarded(inner) => inner == inside->Detached_inner,
            }
        },
{
    if outs.len() > 0 {
        let out = outs[outs.len() - 1];
        assert(call_ensures(
            Shield::<F>::poll,
            (calls[outs.len() - 1], contexts[outs.len() - 1]),
            out,
        ));
    }
    if fate is Detached {
        let found = choose|found: Result<Handle, TryCurrentError>| #[trigger]
            lookup_gives(found) && match found {
                Ok(on) => fate matches Fate::Detached(task) && spawn_gives(on, end@->0, task),
                Err(_) => fate == Fate::Discarded(end@->0),
            };
        assert(found is Ok);
        assert(spawn_gives(found->Ok_0, end@->0, fate->Detached_0));
    }
}

/// A task that a spawn may give was given by a call of [`spawn_detached`] on the same
/// runtime with the same future.
proof fn law_spawned_tasks_come_from_the_spawn<F>(handle: Handle, future: F, task: TaskId) where
    F: Future + Unpin + Send + 'static,

    ensures
        spawn_gives(handle, future, task) ==> call_ensures(
            spawn_detached::<F>,
            (&handle, future),
            task,
        ),
{
}

} // verus!
