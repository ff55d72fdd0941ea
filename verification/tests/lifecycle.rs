//! The primitives poll by poll, without a runtime.

use std::borrow::Cow;
use std::cell::{Cell, RefCell};
use std::future::{pending, poll_fn, ready, Future};
use std::sync::atomic::{AtomicUsize, Ordering};
use std::sync::Arc;
use std::task::{Context, Poll, Wake, Waker};
use std::time::Duration;
use tokio_cancel_guard::cancel_track::TraceSpan;
use tokio_cancel_guard::shield::{Disposition, Fate};
use tokio_cancel_guard::test_utils::{DropSimulation, RaceOutcome, SimulationAction, TrackPolls};
use tokio_cancel_guard::{CancelTrack, DeferGuard, Polled, Shield};
use tracing::callsite::{Callsite, Identifier};
use tracing::field::FieldSet;
use tracing::metadata::Kind;
use tracing::subscriber::Interest;
use tracing::{Level, Metadata, Span};

struct Idle;

impl Wake for Idle {
    fn wake(self: Arc<Self>) {}
}

fn waker() -> Waker {
    Waker::from(Arc::new(Idle))
}

/// A future that is pending `left` times and then ready with `output`.
fn ready_after(left: u32, output: u8) -> impl Future<Output = u8> + Unpin + Send + 'static {
    let mut left = left;
    poll_fn(move |_cx: &mut Context<'_>| {
        if left == 0 {
            Poll::Ready(output)
        } else {
            left -= 1;
            Poll::Pending
        }
    })
}

#[test]
fn guard_runs_its_rollback_exactly_once_if_dropped_pending() {
    let waker = waker();
    let mut cx = Context::from_waker(&waker);
    let runs = Cell::new(0u32);
    let mut guard = DeferGuard::new(pending::<u8>(), || runs.set(runs.get() + 1));

    assert_eq!(guard.poll(&mut cx).0, Polled::Pending);
    assert_eq!(guard.poll(&mut cx).0, Polled::Pending);
    assert!(!guard.is_completed());
    assert_eq!(runs.get(), 0);

    assert!(guard.drop().0);
    assert_eq!(runs.get(), 1);
}

#[test]
fn guard_runs_its_rollback_if_never_polled() {
    let runs = Cell::new(0u32);
    let guard = DeferGuard::new(ready(1u8), || runs.set(runs.get() + 1));
    assert!(guard.drop().0);
    assert_eq!(runs.get(), 1);
}

#[test]
fn guard_is_disarmed_by_the_output() {
    let waker = waker();
    let mut cx = Context::from_waker(&waker);
    let runs = Cell::new(0u32);
    let mut guard = DeferGuard::new(ready_after(2, 9), || runs.set(runs.get() + 1));

    assert_eq!(guard.poll(&mut cx).0, Polled::Pending);
    assert_eq!(guard.poll(&mut cx).0, Polled::Pending);
    assert_eq!(guard.poll(&mut cx).0, Polled::Ready(9));
    assert!(guard.is_completed());

    assert!(!guard.drop().0);
    assert_eq!(runs.get(), 0);
}

#[test]
fn guard_releases_the_closure_as_soon_as_it_is_disarmed() {
    let waker = waker();
    let mut cx = Context::from_waker(&waker);
    let owned = Arc::new(());
    let captured = owned.clone();
    let mut guard = DeferGuard::new(ready(1u8), move || drop(captured));

    assert_eq!(Arc::strong_count(&owned), 2);
    assert_eq!(guard.poll(&mut cx).0, Polled::Ready(1));
    assert_eq!(Arc::strong_count(&owned), 1);
}

#[test]
fn guard_hands_out_the_disarmed_closure_uncalled() {
    let waker = waker();
    let mut cx = Context::from_waker(&waker);
    let runs = Cell::new(0u32);
    let mut guard = DeferGuard::new(ready_after(1, 9), || runs.set(runs.get() + 1));

    assert!(guard.poll(&mut cx).1.is_none());
    let (polled, disarmed) = guard.poll(&mut cx);
    assert_eq!(polled, Polled::Ready(9));
    assert_eq!(runs.get(), 0);
    disarmed.unwrap()();
    assert_eq!(runs.get(), 1);
}

/// Writes its name when it is dropped.
struct Traced<'a>(&'static str, &'a RefCell<Vec<&'static str>>);

impl Drop for Traced<'_> {
    fn drop(&mut self) {
        self.1.borrow_mut().push(self.0);
    }
}

#[test]
fn guard_runs_its_rollback_before_the_future_is_dropped() {
    let waker = waker();
    let mut cx = Context::from_waker(&waker);
    let log = RefCell::new(Vec::new());
    let held = Traced("held value dropped", &log);
    let owner = Box::pin(async move {
        let output = pending::<u8>().await;
        drop(held);
        output
    });
    let mut guard = DeferGuard::new(owner, || log.borrow_mut().push("rolled back"));
    assert_eq!(guard.poll(&mut cx).0, Polled::Pending);

    let (rolled_back, inner) = guard.drop();
    assert!(rolled_back);
    assert_eq!(*log.borrow(), ["rolled back"]);
    drop(inner);
    assert_eq!(*log.borrow(), ["rolled back", "held value dropped"]);
}

#[test]
fn guard_settles_what_a_poll_returned() {
    let mut guard = DeferGuard::new(pending::<u8>(), || {});
    assert_eq!(guard.settle(Polled::Pending).0, Polled::Pending);
    assert!(!guard.is_completed());
    assert_eq!(guard.settle(Polled::Ready(5)).0, Polled::Ready(5));
    assert!(guard.is_completed());
    assert!(!guard.drop().0);
}

#[test]
fn shield_hands_over_its_future_as_the_last_poll_left_it() {
    let waker = waker();
    let mut cx = Context::from_waker(&waker);
    let runtime = tokio::runtime::Builder::new_current_thread().build().unwrap();
    let mut shield = Shield::new(ready_after(2, 4));
    assert_eq!(shield.poll(&mut cx).0, Polled::Pending);
    assert!(!shield.is_completed());

    match shield.release(Some(runtime.handle().clone())) {
        Disposition::Detached { inner, .. } => {
            let mut rest = Shield::new(inner);
            assert_eq!(rest.poll(&mut cx).0, Polled::Pending);
            assert_eq!(rest.poll(&mut cx).0, Polled::Ready(4));
            assert!(rest.is_completed());
        }
        _ => panic!("the future should have been handed over"),
    }
}

#[test]
fn shield_hands_out_its_finished_future() {
    let waker = waker();
    let mut cx = Context::from_waker(&waker);
    let owned = Arc::new(());
    let captured = owned.clone();
    let mut shield = Shield::new(Box::pin(async move {
        let _ = &captured;
        5u8
    }));
    let (polled, finished) = shield.poll(&mut cx);
    assert_eq!(polled, Polled::Ready(5));
    drop(finished.unwrap());
    assert_eq!(Arc::strong_count(&owned), 1);
    assert!(shield.is_completed());
}

/// The output of a detached future is dropped by the task, on the thread that runs
/// it.
#[test]
fn detached_task_discards_the_output() {
    let runtime = tokio::runtime::Builder::new_current_thread().build().unwrap();
    let _context = runtime.enter();
    let output = Arc::new(());
    let held = output.clone();
    assert!(matches!(Shield::new(ready(held)).drop(), Fate::Detached(_)));
    assert_eq!(Arc::strong_count(&output), 2);

    runtime.block_on(tokio::task::yield_now());
    assert_eq!(Arc::strong_count(&output), 1);
}

#[test]
fn shield_without_a_runtime_discards_its_future() {
    let shield = Shield::new(pending::<u8>());
    assert!(matches!(shield.release(None), Disposition::Discarded { .. }));
}

#[test]
fn shield_that_completed_has_nothing_to_release() {
    let waker = waker();
    let mut cx = Context::from_waker(&waker);
    let runtime = tokio::runtime::Builder::new_current_thread().build().unwrap();
    let _context = runtime.enter();

    let mut shield = Shield::new(ready(3u8));
    assert_eq!(shield.poll(&mut cx).0, Polled::Ready(3));
    assert!(matches!(shield.drop(), Fate::Finished));

    let mut shield = Shield::new(pending::<u8>());
    assert_eq!(shield.settle(Polled::Ready(8)).0, Polled::Ready(8));
    assert!(matches!(shield.release(Some(runtime.handle().clone())), Disposition::Finished));
}

#[test]
fn shield_dropped_inside_a_runtime_is_detached() {
    let runtime = tokio::runtime::Builder::new_current_thread().build().unwrap();
    let _context = runtime.enter();
    let (sender, receiver) = std::sync::mpsc::channel::<u8>();
    let shield = Shield::new(Box::pin(async move {
        let _ = sender.send(6);
    }));
    assert!(matches!(shield.drop(), Fate::Detached(_)));

    runtime.block_on(tokio::task::yield_now());
    assert_eq!(receiver.try_recv(), Ok(6));
}

#[test]
fn tracker_reports_the_first_span() {
    let _subscriber = tracing::subscriber::set_default(tracing_subscriber::registry());
    let first = span_named("first");
    let second = span_named("second");
    let third = span_named("third");
    let first_id = first.id().map(|id| id.into_u64());
    assert!(first_id.is_some());

    let mut track = CancelTrack::new(pending::<u8>(), "index_block_write");
    track.capture_span(TraceSpan::new(first.clone()));
    track.capture_span(TraceSpan::new(second.clone()));
    let event = track.into_event(TraceSpan::new(third.clone())).unwrap();

    assert_eq!(event.target, "runtime::cancellation");
    assert_eq!(event.task_name, "index_block_write");
    assert_eq!(event.span_id, first_id);
    assert_eq!(event.parent.id, first_id);
    assert_eq!(event.parent.span.id(), first.id());
    assert_eq!(event.status_code, "ERROR");
    assert_eq!(event.status_description, "Task abruptly cancelled inside select! macro loop");
    assert_eq!(event.message, "Cancellation safety violation: task aborted mid-execution");
}

#[test]
fn tracker_that_was_never_polled_reports_the_span_of_the_drop() {
    let track = CancelTrack::new(pending::<u8>(), String::from("write"));
    let _subscriber = tracing::subscriber::set_default(tracing_subscriber::registry());
    let last = span_named("last");
    let event = track.into_event(TraceSpan::new(last.clone())).unwrap();
    assert_eq!(event.parent.span.id(), last.id());
    assert_eq!(event.span_id, last.id().map(|id| id.into_u64()));
    assert!(event.span_id.is_some());
    assert_eq!(event.task_name, "write");
}

#[test]
fn tracker_of_a_completed_future_reports_nothing() {
    let waker = waker();
    let mut cx = Context::from_waker(&waker);
    let mut track = CancelTrack::new(ready_after(1, 2), Cow::Borrowed("write"));
    assert_eq!(track.poll(&mut cx), Polled::Pending);
    assert!(!track.is_completed());
    assert_eq!(track.poll(&mut cx), Polled::Ready(2));
    assert!(track.is_completed());
    assert!(track.drop().is_none());

    let mut track = CancelTrack::new(pending::<u8>(), "write");
    assert_eq!(track.settle(Polled::Ready(3)), Polled::Ready(3));
    assert!(track.into_event(TraceSpan::new(Span::none())).is_none());
}

struct Site;

impl Callsite for Site {
    fn set_interest(&self, _interest: Interest) {}

    fn metadata(&self) -> &Metadata<'_> {
        unreachable!()
    }
}

fn span_named(name: &'static str) -> Span {
    let site: &'static Site = &Site;
    let metadata: &'static Metadata<'static> = Box::leak(Box::new(Metadata::new(
        name,
        "lifecycle",
        Level::ERROR,
        None,
        None,
        None,
        FieldSet::new(&[], Identifier(site)),
        Kind::SPAN,
    )));
    Span::new(metadata, &metadata.fields().value_set(&[]))
}

#[test]
fn tracker_captures_the_current_span_in_its_first_poll() {
    let waker = waker();
    let mut cx = Context::from_waker(&waker);
    let _subscriber = tracing::subscriber::set_default(tracing_subscriber::registry());
    let first = span_named("first");
    let second = span_named("second");
    assert!(first.id().is_some());
    assert_ne!(first.id(), second.id());

    let mut track = CancelTrack::new(pending::<u8>(), "write");
    {
        let _entered = first.enter();
        assert_eq!(track.poll(&mut cx), Polled::Pending);
    }
    let _entered = second.enter();
    assert_eq!(track.poll(&mut cx), Polled::Pending);
    let event = track.drop().unwrap();
    assert_eq!(event.parent.span.id(), first.id());
    assert_eq!(event.span_id, first.id().map(|id| id.into_u64()));

    let event = CancelTrack::new(pending::<u8>(), "write").drop().unwrap();
    assert_eq!(event.parent.span.id(), second.id());
    assert_eq!(event.span_id, second.id().map(|id| id.into_u64()));
}

#[test]
fn every_poll_is_counted_once() {
    let waker = waker();
    let mut cx = Context::from_waker(&waker);
    let (mut polls, counter) = TrackPolls::new(ready_after(2, 1));
    assert_eq!(polls.polls(), 0);
    assert_eq!(counter.load(Ordering::SeqCst), 0);

    assert_eq!(polls.poll(&mut cx), Polled::Pending);
    assert_eq!(polls.poll(&mut cx), Polled::Pending);
    assert_eq!(polls.poll(&mut cx), Polled::Ready(1));
    assert_eq!(polls.polls(), 3);
    assert_eq!(counter.load(Ordering::SeqCst), 3);
}

#[test]
fn every_poll_adds_one_to_the_shared_counter() {
    let waker = waker();
    let mut cx = Context::from_waker(&waker);
    let (mut polls, counter) = TrackPolls::new(pending::<u8>());
    counter.store(40, Ordering::SeqCst);
    assert_eq!(polls.poll(&mut cx), Polled::Pending);
    assert_eq!(counter.load(Ordering::SeqCst), 41);
}

#[test]
fn shared_counter_wraps_around() {
    let waker = waker();
    let mut cx = Context::from_waker(&waker);
    let (mut polls, counter) = TrackPolls::new(pending::<u8>());
    counter.store(usize::MAX, Ordering::SeqCst);
    assert_eq!(polls.poll(&mut cx), Polled::Pending);
    assert_eq!(counter.load(Ordering::SeqCst), 0);
    assert_eq!(polls.polls(), 1);
}

#[test]
fn one_poll_of_a_wrapper_is_one_poll_of_its_future() {
    let waker = waker();
    let mut cx = Context::from_waker(&waker);
    let received = Cell::new(0u32);
    let future = || {
        poll_fn(|_cx: &mut Context<'_>| {
            received.set(received.get() + 1);
            Poll::<u8>::Pending
        })
    };

    let mut guard = DeferGuard::new(future(), || {});
    assert_eq!(guard.poll(&mut cx).0, Polled::Pending);
    assert_eq!(received.get(), 1);

    let mut track = CancelTrack::new(future(), "write");
    assert_eq!(track.poll(&mut cx), Polled::Pending);
    assert_eq!(received.get(), 2);

    let (mut polls, counter) = TrackPolls::new(future());
    assert_eq!(polls.poll(&mut cx), Polled::Pending);
    assert_eq!(received.get(), 3);
    assert_eq!(counter.load(Ordering::SeqCst), 1);

    let received = Arc::new(AtomicUsize::new(0));
    let shared = received.clone();
    let mut shield = Shield::new(poll_fn(move |_cx: &mut Context<'_>| {
        shared.fetch_add(1, Ordering::SeqCst);
        Poll::<u8>::Pending
    }));
    assert_eq!(shield.poll(&mut cx).0, Polled::Pending);
    assert_eq!(received.load(Ordering::SeqCst), 1);
}

#[test]
fn simulation_yields_before_it_races() {
    let mut simulation = DropSimulation::new(Duration::from_millis(10));
    assert!(matches!(simulation.next_action(), SimulationAction::YieldNow));
    simulation.on_yielded();
    match simulation.next_action() {
        SimulationAction::Race { duration } => assert_eq!(duration, Duration::from_millis(10)),
        SimulationAction::YieldNow => panic!("the simulation has already yielded"),
    }
    assert_eq!(simulation.on_race(RaceOutcome::Finished(1u8)), Some(1));

    let mut simulation = DropSimulation::new(Duration::from_millis(10));
    simulation.on_yielded();
    assert_eq!(simulation.on_race(RaceOutcome::<u8>::DeadlineElapsed), None);
}
