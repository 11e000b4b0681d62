//! A wakeup handle that wakes nothing.
//!
//! A wakeup handle is what a suspended computation holds in order to ask its
//! scheduler for another poll. The handle of this crate asks for nothing: each
//! of its four operations returns at once, so it serves a caller that polls a
//! computation a single time and does not want to be called back.
//!
//! The [`raw`] module holds the handle as plain data, a context word next to a
//! table of operations, and the operations themselves. The [`waker`] module
//! holds the handle that is given out, owned or shared.

pub mod raw;
pub mod waker;

pub use raw::{noop, noop_clone, noop_raw_waker, RawWaker, RawWakerVTable, NOOP_WAKER_VTABLE, NULL};
pub use waker::{noop_waker, noop_waker_ref, Waker};
