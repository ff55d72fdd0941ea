//! What one poll of a future gives, and the call that polls it.
use std::future::Future;
use std::pin::Pin;
use std::task::{Context, Poll};
use vstd::prelude::*;

verus! {

/// The task context that every poll is handed, carried through unread.
#[verifier::external_type_specification]
#[verifier::external_body]
pub struct ExContext<'a>(Context<'a>);

/// What a poll returned: the future's output, or that it is not there yet.
#[derive(Debug, PartialEq, Eq)]
pub enum Polled<T> {
    Ready(T),
    Pending,
}

/// Polls `inner` once, with `std::future::Future::poll`.
///
/// Nothing is claimed of the result: whether the future is ready, what it
/// outputs and how the poll changes it are up to the future's own code. That
/// code may panic if it is polled after it was ready, so callers keep track of
/// that.
///
/// The contracts of the `poll` methods speak of a call of this function: what the
/// call was given, how it left the future, and what it returned.
#[verifier::external_body]
pub fn poll_future<F: Future + Unpin>(inner: &mut F, cx: &mut Context<'_>) -> (polled: Polled<
    F::Output,
>) {
    match Pin::new(inner).poll(cx) {
        Poll::Ready(output) => Polled::Ready(output),
        Poll::Pending => Polled::Pending,
    }
}

/// Polls `inner` once.
pub(crate) fn poll_once<F: Future + Unpin>(inner: &mut F, cx: &mut Context<'_>) -> (polled: Polled<
    F::Output,
>)
    ensures
        exists|i: &mut F, c: &mut Context<'_>|
            {
                &&& *i == *old(inner)
                &&& *c == *old(cx)
                &&& *final(i) == *final(inner)
                &&& *final(c) == *final(cx)
                &&& #[trigger] call_ensures(poll_future::<F>, (i, c), polled)
            },
{
    poll_future(inner, cx)
}

/// Polls `inner` once, and discards its output.
pub(crate) fn poll_discarding<F: Future + Unpin>(inner: &mut F, cx: &mut Context<'_>) -> (polled:
    Polled<()>)
    ensures
        exists|i: &mut F, c: &mut Context<'_>, out: Polled<F::Output>|
            {
                &&& *i == *old(inner)
                &&& *c == *old(cx)
                &&& *final(i) == *final(inner)
                &&& *final(c) == *final(cx)
                &&& polled is Ready <==> out is Ready
                &&& #[trigger] call_ensures(poll_future::<F>, (i, c), out)
            },
{
    match poll_once(inner, cx) {
        Polled::Ready(_) => Polled::Ready(()),
        Polled::Pending => Polled::Pending,
    }
}

/// One step of a task that runs `inner` to its end and discards its output: polls
/// `inner` once, and says `ready` if that poll was ready, `pending` if it was not.
pub fn poll_step<F: Future + Unpin, R>(
    inner: &mut F,
    cx: &mut Context<'_>,
    ready: R,
    pending: R,
) -> (said: R)
    ensures
        exists|i: &mut F, c: &mut Context<'_>, out: Polled<F::Output>|
            {
                &&& *i == *old(inner)
                &&& *c == *old(cx)
                &&& *final(i) == *final(inner)
                &&& *final(c) == *final(cx)
                &&& out is Ready ==> said == ready
                &&& out is Pending ==> said == pending
                &&& #[trigger] call_ensures(poll_future::<F>, (i, c), out)
            },
{
    match poll_discarding(inner, cx) {
        Polled::Ready(()) => ready,
        Polled::Pending => pending,
    }
}

/// A step of a task polls the task's future exactly once, and says `ready` exactly if
/// that poll was ready: a task whose steps are such calls is done when its future is,
/// neither before nor after.
pub proof fn law_task_ends_with_its_future<F: Future + Unpin, R>(
    inner: &mut F,
    cx: &mut Context<'_>,
    ready: R,
    pending: R,
    said: R,
)
    requires
        ready != pending,
        call_ensures(poll_step::<F, R>, (inner, cx, ready, pending), said),
    ensures
        said == ready || said == pending,
        exists|f: &mut F, c: &mut Context<'_>, out: Polled<F::Output>|
            {
                &&& *f == *old(inner)
                &&& *c == *old(cx)
                &&& *final(f) == *final(inner)
                &&& said == ready <==> out is Ready
                &&& #[trigger] call_ensures(poll_future::<F>, (f, c), out)
            },
{
}

/// One poll in the life of a future: the future as the poll left it, and whether
/// the poll returned its output.
pub struct PollStep<F> {
    pub inner: F,
    pub ready: bool,
}

/// No poll of `history` comes after one that was ready.
pub open spec fn stops_when_ready<F>(history: Seq<PollStep<F>>) -> bool {
    forall|i: int| 0 <= i < history.len() - 1 ==> !(#[trigger] history[i]).ready
}

/// Some poll of `history` was ready.
pub open spec fn reached_ready<F>(history: Seq<PollStep<F>>) -> bool {
    exists|i: int| 0 <= i < history.len() && (#[trigger] history[i]).ready
}

/// In a history that stops when it is ready, no poll but the last one can be ready.
pub proof fn lemma_ready_only_at_the_end<F>(history: Seq<PollStep<F>>)
    requires
        stops_when_ready(history),
        history.len() > 0,
    ensures
        reached_ready(history) <==> history.last().ready,
        stops_when_ready(history.drop_last()),
        !reached_ready(history.drop_last()),
{
    let n = history.len() - 1;
    assert(history.last() == history[n]);
    assert forall|i: int| 0 <= i < n implies !(#[trigger] history.drop_last()[i]).ready by {
        assert(history.drop_last()[i] == history[i]);
    }
}

} // verus!
