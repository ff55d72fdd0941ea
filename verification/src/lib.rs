//! Cancellation-safety primitives for the Tokio async runtime.
//!
//! A future that loses a `select!` race is dropped at whatever `.await` point it
//! happened to be suspended at. The types of this crate decide what is owed to
//! such a future:
//!
//! - [`DeferGuard`] runs a rollback closure if its future is dropped before it
//!   completes;
//! - [`Shield`] hands its future to the runtime if it is dropped before it
//!   completes;
//! - [`CancelTrack`] describes the cancellation event of a future that is dropped
//!   before it completes;
//! - [`test_utils::TrackPolls`] counts the polls of its future.
//!
//! Each of them holds a future that can be polled through `&mut`, such as a
//! `Pin<Box<_>>`, and has a `poll` and a `drop` method.
pub mod cancel_track;
pub mod defer_guard;
pub mod poll_counter;
pub mod polled;
pub mod shield;
pub mod test_utils;

pub use cancel_track::CancelTrack;
pub use defer_guard::DeferGuard;
pub use polled::Polled;
pub use shield::Shield;
