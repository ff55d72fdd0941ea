# tokio-cancel-guard

Cancellation-safety primitives for the [Tokio](https://tokio.rs) async runtime,
verified with [Verus](https://github.com/verus-lang/verus).

A future that loses a `select!` race is dropped at whatever `.await` point it was
suspended at. What is owed to it then is decided by

| Type | If the future is dropped before it completes |
|------|----------------------------------------------|
| `DeferGuard` | a synchronous rollback closure runs |
| `Shield` | the future moves to a background task of the current runtime |
| `CancelTrack` | an error event names the task and the span of its first poll |

and for tests there are `test_utils::TrackPolls`, which counts polls, and
`test_utils::DropSimulation`, which races a future against a deadline.

## Layout

- `src/` is the verified library. Each type holds a future that can be polled
  through `&mut`, such as a `Pin<Box<_>>`, and has a `poll` and a `drop` method. The
  contracts speak of the type's state before and after, and of the one poll of the
  future in between. A rollback closure that is disarmed and a future that is done
  with are handed back to the caller, who drops them; the proof functions whose
  names begin with `law_` say what holds of a whole life, from creation over any
  number of polls to the drop.
- `app/` makes futures of these types, with `Future` and `Drop`, emits the
  cancellation event with `tracing` and runs the race of a drop simulation.
- `tests/` runs the library, poll by poll and on a Tokio runtime.
