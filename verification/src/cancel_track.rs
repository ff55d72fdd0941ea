//! Observability of cancellations.
use crate::defer_guard::DeferState;
use crate::polled::{poll_once, PollStep, Polled};
use std::borrow::Cow;
use std::future::Future;
use std::task::Context;
use tracing::Span;
use vstd::prelude::*;

verus! {

/// The target of every cancellation event.
pub const EVENT_TARGET: &'static str = "runtime::cancellation";

/// The OpenTelemetry status code of every cancellation event.
pub const STATUS_CODE: &'static str = "ERROR";

/// The OpenTelemetry status description of every cancellation event.
pub const STATUS_DESCRIPTION: &'static str = "Task abruptly cancelled inside select! macro loop";

/// The message of every cancellation event.
pub const EVENT_MESSAGE: &'static str =
    "Cancellation safety violation: task aborted mid-execution";

/// A handle to a `tracing` span, carried through unread.
#[verifier::external_type_specification]
#[verifier::external_body]
pub struct ExSpan(Span);

/// A `tracing` span together with its identifier, which a disabled span has not.
pub struct TraceSpan {
    pub span: Span,
    pub id: Option<u64>,
}

impl TraceSpan {
    /// The identifier is the span's own. Identifiers of spans are never zero.
    pub open spec fn wf(self) -> bool {
        &&& has_id(self.span, self.id)
        &&& self.id != Some(0u64)
    }

    /// Pairs a span with its identifier.
    pub fn new(span: Span) -> (paired: Self)
        ensures
            paired.wf(),
            paired.span == span,
            has_id(span, paired.id),
            paired.id != Some(0u64),
    {
        let id = span_id(&span);
        TraceSpan { span, id }
    }
}

/// `tracing::Span::current` returns a handle to the span that the calling thread is
/// in, or a disabled one. Which span that is depends on the calling thread and its
/// subscriber, so nothing is claimed of the result.
pub assume_specification[ Span::current ]() -> Span;

/// The identifier of `span` as `tracing::Span::id` gives it, or `None` if the span is
/// disabled.
///
/// It is only claimed that an identifier, which `tracing` keeps as a non-zero
/// integer, is not zero. What it is was the subscriber's choice.
#[verifier::external_body]
fn span_id(span: &Span) -> (id: Option<u64>)
    ensures
        id != Some(0u64),
{
    span.id().map(|id| id.into_u64())
}

/// Asking `span` for its identifier may give `id`.
pub closed spec fn has_id(span: Span, id: Option<u64>) -> bool {
    call_ensures(span_id, (&span,), id)
}

/// The lookup of the current span may give `span`.
pub open spec fn is_current(span: Span) -> bool {
    call_ensures(Span::current, (), span)
}

/// `From<&str>` for `std::borrow::Cow` borrows the string it is given.
/// [`CancelTrack::new`] reaches it through `Into` where the name is a `&str`.
pub assume_specification<'a>[ <Cow<'a, str> as From<&'a str>>::from ](s: &'a str) -> (name: Cow<
    'a,
    str,
>)
    ensures
        name@ == s@,
;

/// `From<String>` for `std::borrow::Cow` takes over the string it is given.
/// [`CancelTrack::new`] reaches it through `Into` where the name is a `String`.
pub assume_specification<'a>[ <Cow<'a, str> as From<String>>::from ](s: String) -> (name: Cow<
    'a,
    str,
>)
    ensures
        name@ == s@,
;

/// A future whose cancellation is reported.
///
/// A tracker that is dropped before its future completes gives a
/// [`CancellationEvent`], correlated to the span in which the future was first
/// polled.
pub struct CancelTrack<F: Future> {
    inner: F,
    task_identifier: Cow<'static, str>,
    is_completed: bool,
    span: Option<TraceSpan>,
}

/// The error event that a cancellation is reported by.
///
/// It owns the future that was cancelled, which lives until the event is dropped:
/// whatever the future does when it is dropped comes after the report.
pub struct CancellationEvent<F> {
    /// The future that was cancelled.
    pub cancelled: F,
    /// The target of the event.
    pub target: &'static str,
    /// The span that the event belongs to.
    pub parent: TraceSpan,
    /// The name of the cancelled task.
    pub task_name: Cow<'static, str>,
    /// The identifier of the span that the event belongs to.
    pub span_id: Option<u64>,
    /// The value of the field `otel.status_code`.
    pub status_code: &'static str,
    /// The value of the field `otel.status_description`.
    pub status_description: &'static str,
    /// The message of the event.
    pub message: &'static str,
}

/// What a [`CancellationEvent`] says.
pub struct EventState<F> {
    pub cancelled: F,
    pub target: Seq<char>,
    pub parent: TraceSpan,
    pub task_name: Seq<char>,
    pub span_id: Option<u64>,
    pub status_code: Seq<char>,
    pub status_description: Seq<char>,
    pub message: Seq<char>,
}

impl<F> View for CancellationEvent<F> {
    type V = EventState<F>;

    open spec fn view(&self) -> EventState<F> {
        EventState {
            cancelled: self.cancelled,
            target: self.target@,
            parent: self.parent,
            task_name: self.task_name@,
            span_id: self.span_id,
            status_code: self.status_code@,
            status_description: self.status_description@,
            message: self.message@,
        }
    }
}

/// The event that reports, in the span `parent`, that the future `cancelled` of the
/// task `task_name` was cancelled.
pub open spec fn cancellation_of<F>(
    cancelled: F,
    task_name: Seq<char>,
    parent: TraceSpan,
) -> EventState<F> {
    EventState {
        cancelled,
        target: "runtime::cancellation"@,
        parent,
        task_name,
        span_id: parent.id,
        status_code: "ERROR"@,
        status_description: "Task abruptly cancelled inside select! macro loop"@,
        message: "Cancellation safety violation: task aborted mid-execution"@,
    }
}

/// What a [`CancelTrack`] holds: its future, the name of the task, the span of the
/// first poll, and whether the future has completed.
pub struct TrackState<F> {
    pub inner: F,
    pub task_name: Seq<char>,
    pub span: Option<TraceSpan>,
    pub completed: bool,
}

impl<F> TrackState<F> {
    /// The state of a tracker that was not polled yet.
    pub open spec fn unpolled(future: F, task_name: Seq<char>) -> Self {
        TrackState { inner: future, task_name, span: None, completed: false }
    }

    /// The span that was captured is one that exists.
    pub open spec fn wf(self) -> bool {
        self.span matches Some(span) ==> span.wf()
    }

    /// The span of this state, or `current` if none was captured.
    pub open spec fn span_or(self, current: TraceSpan) -> TraceSpan {
        match self.span {
            Some(span) => span,
            None => current,
        }
    }

    /// The state after a poll in the span `current` that left the future as
    /// `inner`.
    pub open spec fn after_poll(self, current: TraceSpan, inner: F, ready: bool) -> Self {
        TrackState {
            inner,
            task_name: self.task_name,
            span: Some(self.span_or(current)),
            completed: ready,
        }
    }

    /// The state after all polls of `history`, of which the one at index `i` was
    /// made in the span `currents[i]`.
    pub open spec fn after_polls(
        self,
        history: Seq<PollStep<F>>,
        currents: Seq<TraceSpan>,
    ) -> Self
        decreases history.len(),
    {
        if history.len() == 0 {
            self
        } else {
            self.after_polls(history.drop_last(), currents).after_poll(
                currents[history.len() - 1],
                history.last().inner,
                history.last().ready,
            )
        }
    }

    /// The event that is owed if the tracker is dropped in this state, in the
    /// span `current`.
    pub open spec fn report(self, current: TraceSpan) -> Option<EventState<F>> {
        if self.completed {
            None
        } else {
            Some(cancellation_of(self.inner, self.task_name, self.span_or(current)))
        }
    }
}

impl<F: Future> View for CancelTrack<F> {
    type V = TrackState<F>;

    closed spec fn view(&self) -> TrackState<F> {
        TrackState {
            inner: self.inner,
            task_name: self.task_identifier@,
            span: self.span,
            completed: self.is_completed,
        }
    }
}

/// What an event says, where there is one.
pub open spec fn event_view<F>(event: Option<CancellationEvent<F>>) -> Option<EventState<F>> {
    match event {
        Some(event) => Some(event@),
        None => None,
    }
}

impl<F: Future> CancelTrack<F> {
    /// The span that was captured is one that exists.
    pub open spec fn wf(&self) -> bool {
        self@.wf()
    }

    /// Wraps a future in a tracker that reports it under the given name.
    pub fn new<N: Into<Cow<'static, str>>>(future: F, task_identifier: N) -> (track: Self)
        ensures
            track.wf(),
            exists|name: Cow<'static, str>|
                call_ensures(<N as Into<Cow<'static, str>>>::into, (task_identifier,), name)
                    && track@ == TrackState::unpolled(future, #[trigger] name@)
                    && track@.task_name == name@,
            track@.inner == future,
            track@.span is None,
            !track@.completed,
    {
        let name: Cow<'static, str> = task_identifier.into();
        let track = CancelTrack {
            inner: future,
            task_identifier: name,
            is_completed: false,
            span: None,
        };
        assert(track@ == TrackState::unpolled(future, name@));
        track
    }

    /// Whether the future has completed. A tracker whose future has completed must
    /// not be polled again.
    pub fn is_completed(&self) -> (completed: bool)
        ensures
            completed == self@.completed,
    {
        self.is_completed
    }

    /// Captures `current` as the span of the future, unless there is one already.
    pub fn capture_span(&mut self, current: TraceSpan)
        requires
            old(self).wf(),
            current.wf(),
        ensures
            final(self).wf(),
            final(self)@ == (TrackState { span: Some(old(self)@.span_or(current)), ..old(self)@ }),
            old(self)@.span is Some ==> final(self)@.span == old(self)@.span,
            old(self)@.span is None ==> final(self)@.span == Some(current),
    {
        if self.span.is_none() {
            self.span = Some(current);
        }
    }

    /// Takes note of what a poll of the future returned, and returns it.
    pub fn settle(&mut self, polled: Polled<F::Output>) -> (out: Polled<F::Output>)
        requires
            old(self).wf(),
            !old(self)@.completed,
        ensures
            final(self).wf(),
            out == polled,
            final(self)@ == (TrackState { completed: polled is Ready, ..old(self)@ }),
    {
        match polled {
            Polled::Ready(output) => {
                self.is_completed = true;
                Polled::Ready(output)
            },
            Polled::Pending => Polled::Pending,
        }
    }

    /// Ends the tracker's life in the span `current`: the event to emit, if the
    /// future has not completed. The event belongs to the span of the first poll,
    /// or to `current` if there was none.
    pub fn into_event(self, current: TraceSpan) -> (event: Option<CancellationEvent<F>>)
        ensures
            event_view(event) == self@.report(current),
            event is None <==> self@.completed,
            event matches Some(event) ==> {
                &&& event.cancelled == self@.inner
                &&& event.task_name@ == self@.task_name
                &&& event.span_id == event.parent.id
                &&& self@.span matches Some(span) ==> event.parent == span
                &&& self@.span is None ==> event.parent == current
                &&& event.target@ == "runtime::cancellation"@
                &&& event.status_code@ == "ERROR"@
                &&& event.status_description@
                    == "Task abruptly cancelled inside select! macro loop"@
                &&& event.message@ == "Cancellation safety violation: task aborted mid-execution"@
            },
    {
        if self.is_completed {
            return None;
        }
        let parent = match self.span {
            Some(span) => span,
            None => current,
        };
        let span_id = parent.id;
        Some(
            CancellationEvent {
                cancelled: self.inner,
                target: EVENT_TARGET,
                parent,
                task_name: self.task_identifier,
                span_id,
                status_code: STATUS_CODE,
                status_description: STATUS_DESCRIPTION,
                message: EVENT_MESSAGE,
            },
        )
    }

    /// Ends the tracker's life: the event to emit, if the future has not
    /// completed. The event belongs to the span of the first poll, or to the
    /// current one if there was none.
    pub fn drop(self) -> (event: Option<CancellationEvent<F>>)
        requires
            self.wf(),
        ensures
            event is None <==> self@.completed,
            event matches Some(event) ==> {
                &&& event.parent.wf()
                &&& self@.span is None ==> is_current(event.parent.span)
                &&& event@ == cancellation_of(
                    self@.inner,
                    self@.task_name,
                    self@.span_or(event.parent),
                )
                &&& event.cancelled == self@.inner
                &&& event.task_name@ == self@.task_name
                &&& event.span_id == event.parent.id
                &&& has_id(event.parent.span, event.span_id)
                &&& event.span_id != Some(0u64)
                &&& self@.span matches Some(span) ==> event.parent == span
                &&& self@.span is None ==> call_ensures(Span::current, (), event.parent.span)
                &&& event.target@ == "runtime::cancellation"@
                &&& event.status_code@ == "ERROR"@
                &&& event.status_description@
                    == "Task abruptly cancelled inside select! macro loop"@
                &&& event.message@ == "Cancellation safety violation: task aborted mid-execution"@
            },
    {
        if self.is_completed {
            return None;
        }
        let current = TraceSpan::new(Span::current());
        self.into_event(current)
    }
}

impl<F: Future + Unpin> CancelTrack<F> {
    /// Polls the future once and returns what the poll returned. The first poll
    /// captures the current span.
    pub fn poll(&mut self, cx: &mut Context<'_>) -> (out: Polled<F::Output>)
        requires
            old(self).wf(),
            !old(self)@.completed,
        ensures
            final(self).wf(),
            exists|i: &mut F, c: &mut Context<'_>|
                {
                    &&& *i == old(self)@.inner
                    &&& *c == *old(cx)
                    &&& *final(i) == final(self)@.inner
                    &&& *final(c) == *final(cx)
                    &&& #[trigger] call_ensures(crate::polled::poll_future::<F>, (i, c), out)
                },
            final(self)@.span is Some,
            old(self)@.span is None ==> is_current(final(self)@.span->0.span),
            old(self)@.span is None ==> call_ensures(
                Span::current,
                (),
                final(self)@.span->0.span,
            ),
            old(self)@.span is Some ==> final(self)@.span == old(self)@.span,
            has_id(final(self)@.span->0.span, final(self)@.span->0.id),
            final(self)@.task_name == old(self)@.task_name,
            final(self)@.completed <==> out is Ready,
            final(self)@ == old(self)@.after_poll(
                final(self)@.span->0,
                final(self)@.inner,
                out is Ready,
            ),
    {
        if self.span.is_none() {
            let current = TraceSpan::new(Span::current());
            self.capture_span(current);
        }
        let polled = poll_once(&mut self.inner, cx);
        self.settle(polled)
    }
}

/// However a tracker is polled, dropping it in the span `at_drop` gives an event
/// exactly if no poll was ready. The event carries the name that the tracker was
/// created with and the future as the last poll left it, and belongs to the span of the first poll, whatever the spans of
/// later polls and of the drop; only a tracker that was never polled is reported in
/// the span of the drop.
///
/// The contract of [`CancelTrack::poll`] supplies each step: the future as its one
/// poll left it, whether that poll was ready, and the span that it captured.
pub proof fn law_event_unless_ready<F>(
    future: F,
    task_name: Seq<char>,
    history: Seq<PollStep<F>>,
    currents: Seq<TraceSpan>,
    at_drop: TraceSpan,
)
    requires
        crate::polled::stops_when_ready(history),
        currents.len() == history.len(),
    ensures
        TrackState::unpolled(future, task_name).after_polls(history, currents).report(at_drop) == (
        if crate::polled::reached_ready(history) {
            None
        } else if history.len() == 0 {
            Some(cancellation_of(future, task_name, at_drop))
        } else {
            Some(cancellation_of(history.last().inner, task_name, currents[0]))
        }),
{
    lemma_after_polls(future, task_name, history, currents);
    if history.len() > 0 {
        crate::polled::lemma_ready_only_at_the_end(history);
    }
}

/// What every poll keeps and sets.
proof fn lemma_after_polls<F>(
    future: F,
    task_name: Seq<char>,
    history: Seq<PollStep<F>>,
    currents: Seq<TraceSpan>,
)
    ensures
        ({
            let state = TrackState::unpolled(future, task_name).after_polls(history, currents);
            &&& state.inner == (if history.len() > 0 {
                history.last().inner
            } else {
                future
            })
            &&& state.task_name == task_name
            &&& state.completed == (history.len() > 0 && history.last().ready)
            &&& state.span == (if history.len() > 0 {
                Some(currents[0])
            } else {
                None
            })
        }),
    decreases history.len(),
{
    if history.len() > 0 {
        lemma_after_polls(future, task_name, history.drop_last(), currents);
    }
}

/// A guard inside a tracker: whatever their common polls returned, the tracker
/// reports the cancellation exactly if the guard rolls back.
pub proof fn law_tracked_guard_reports_every_rollback<F, G, C: FnOnce()>(
    guarded: F,
    hook: C,
    guard_history: Seq<PollStep<F>>,
    watched: G,
    task_name: Seq<char>,
    track_history: Seq<PollStep<G>>,
    currents: Seq<TraceSpan>,
    at_drop: TraceSpan,
)
    requires
        hook.requires(()),
        crate::polled::stops_when_ready(guard_history),
        guard_history.len() == track_history.len() == currents.len(),
        forall|i: int|
            0 <= i < guard_history.len() ==> (#[trigger] guard_history[i]).ready
                == track_history[i].ready,
    ensures
        TrackState::unpolled(watched, task_name).after_polls(track_history, currents).report(
            at_drop,
        ) is Some <==> DeferState::armed(guarded, hook).after_polls(guard_history).rollback()
            is Some,
{
    crate::defer_guard::law_rollback_runs_unless_ready(guarded, hook, guard_history);
    lemma_after_polls(watched, task_name, track_history, currents);
    let n = guard_history.len();
    if n > 0 {
        crate::polled::lemma_ready_only_at_the_end(guard_history);
        assert(guard_history[n - 1].ready == track_history[n - 1].ready);
    }
}

/// A tracker that is given its name as a string literal or a `String` reports
/// under that name: nothing else comes out of the conversion.
pub proof fn law_string_names_are_kept(literal: &'static str, owned: String, name: Cow<'static, str>)
    ensures
        call_ensures(<&'static str as Into<Cow<'static, str>>>::into, (literal,), name) ==> name@
            == literal@,
        call_ensures(<String as Into<Cow<'static, str>>>::into, (owned,), name) ==> name@
            == owned@,
{
}

/// A whole life of a tracker, call by call: `created` is made from `future` and a name,
/// polled any number of times, though not after it was ready, which leaves `end`, and
/// either asked for its event in the span `at_drop`, which gives `event`, or dropped,
/// which gives `dropped`.
///
/// There is an event exactly if no poll was ready. Its name is the given one, letter for
/// letter, its parent the span that was current in the first poll, or the one at the drop
/// if there was no poll, and its span identifier that of its parent.
pub proof fn law_life_of_a_tracker<F: Future + Unpin>(
    future: F,
    name: &'static str,
    created: CancelTrack<F>,
    calls: Seq<&mut CancelTrack<F>>,
    contexts: Seq<&mut Context<'_>>,
    outs: Seq<Polled<F::Output>>,
    end: CancelTrack<F>,
    at_drop: TraceSpan,
    event: Option<CancellationEvent<F>>,
    dropped: Option<CancellationEvent<F>>,
)
    requires
        call_ensures(CancelTrack::<F>::new::<&'static str>, (future, name), created),
        calls.len() == outs.len(),
        contexts.len() == outs.len(),
        forall|k: int|
            0 <= k < outs.len() ==> call_ensures(
                CancelTrack::<F>::poll,
                (calls[k], contexts[k]),
                #[trigger] outs[k],
            ),
        outs.len() == 0 ==> end == created,
        outs.len() > 0 ==> *calls[0] == created && *final(calls[outs.len() - 1]) == end,
        forall|k: int| 0 < k < outs.len() ==> *(#[trigger] calls[k]) == *final(calls[k - 1]),
        forall|k: int| 0 <= k < outs.len() - 1 ==> (#[trigger] outs[k]) is Pending,
        call_ensures(CancelTrack::<F>::into_event, (end, at_drop), event),
        call_ensures(CancelTrack::<F>::drop, (end,), dropped),
    ensures
        event is None <==> outs.len() > 0 && outs.last() is Ready,
        dropped is None <==> outs.len() > 0 && outs.last() is Ready,
        event matches Some(e) ==> {
            &&& e.task_name@ == name@
            &&& e.span_id == e.parent.id
            &&& e.target@ == "runtime::cancellation"@
            &&& e.status_code@ == "ERROR"@
            &&& e.status_description@ == "Task abruptly cancelled inside select! macro loop"@
            &&& e.message@ == "Cancellation safety violation: task aborted mid-execution"@
            &&& outs.len() == 0 ==> e.parent == at_drop && e.cancelled == future
            &&& outs.len() > 0 ==> call_ensures(Span::current, (), e.parent.span)
            &&& outs.len() > 0 ==> has_id(e.parent.span, e.span_id)
            &&& outs.len() > 0 ==> final(calls[0])@.span == Some(e.parent)
        },
        dropped matches Some(e) ==> {
            &&& e.task_name@ == name@
            &&& e.span_id == e.parent.id
            &&& e.target@ == "runtime::cancellation"@
            &&& e.status_code@ == "ERROR"@
            &&& e.status_description@ == "Task abruptly cancelled inside select! macro loop"@
            &&& e.message@ == "Cancellation safety violation: task aborted mid-execution"@
            &&& call_ensures(Span::current, (), e.parent.span)
            &&& has_id(e.parent.span, e.span_id)
            &&& outs.len() == 0 ==> e.cancelled == future
            &&& outs.len() > 0 ==> event->0.parent == e.parent
        },
{
    if outs.len() > 0 {
        lemma_tracker_keeps_name_and_span(
            future,
            name@,
            created,
            calls,
            contexts,
            outs,
            outs.len() - 1,
        );
    }
}

/// As [`law_life_of_a_tracker`] says it of a literal, the event of a tracker that was
/// never polled carries the name that it was given as a `String`.
pub proof fn law_owned_name_is_reported<F: Future>(
    future: F,
    name: String,
    created: CancelTrack<F>,
    at_drop: TraceSpan,
    event: Option<CancellationEvent<F>>,
)
    requires
        call_ensures(CancelTrack::<F>::new::<String>, (future, name), created),
        call_ensures(CancelTrack::<F>::into_event, (created, at_drop), event),
    ensures
        event matches Some(e) && e.task_name@ == name@,
{
}

/// Every poll of a tracker keeps its name, and keeps the span of the first poll.
proof fn lemma_tracker_keeps_name_and_span<F: Future + Unpin>(
    future: F,
    name: Seq<char>,
    created: CancelTrack<F>,
    calls: Seq<&mut CancelTrack<F>>,
    contexts: Seq<&mut Context<'_>>,
    outs: Seq<Polled<F::Output>>,
    n: int,
)
    requires
        created@.task_name == name,
        created@.span is None,
        calls.len() == outs.len(),
        contexts.len() == outs.len(),
        forall|k: int|
            0 <= k < outs.len() ==> call_ensures(
                CancelTrack::<F>::poll,
                (calls[k], contexts[k]),
                #[trigger] outs[k],
            ),
        outs.len() > 0 ==> *calls[0] == created,
        forall|k: int| 0 < k < outs.len() ==> *(#[trigger] calls[k]) == *final(calls[k - 1]),
        0 <= n < outs.len(),
    ensures
        final(calls[n])@.task_name == name,
        final(calls[n])@.completed <==> outs[n] is Ready,
        final(calls[n])@.span is Some,
        final(calls[n])@.span == final(calls[0])@.span,
        call_ensures(Span::current, (), final(calls[0])@.span->0.span),
        has_id(final(calls[0])@.span->0.span, final(calls[0])@.span->0.id),
    decreases n,
{
    let out = outs[n];
    assert(call_ensures(CancelTrack::<F>::poll, (calls[n], contexts[n]), out));
    if n > 0 {
        lemma_tracker_keeps_name_and_span(future, name, created, calls, contexts, outs, n - 1);
        assert(*calls[n] == *final(calls[n - 1]));
    }
}

/// The identifier that a span may have is one that asking the span for it gave.
proof fn law_identifiers_come_from_the_span(span: Span, id: Option<u64>, paired: TraceSpan)
    ensures
        has_id(span, id) ==> call_ensures(span_id, (&span,), id),
        call_ensures(TraceSpan::new, (span,), paired) ==> paired.span == span && call_ensures(
            span_id,
            (&span,),
            paired.id,
        ),
{
}

} // verus!
