//! The raw handle: a context word and the table of operations that take it.

use vstd::prelude::*;

verus! {

/// The context word of a handle that has no context: the null address.
pub const NULL: usize = 0;

/// The table of the four operations of a no-op handle.
///
/// Each operation takes the context word of the handle that it is called
/// through. None of them reads what lies behind that word, none unwinds, and
/// none opens an invariant, so each may be called any number of times, from a
/// destructor and from any thread.
#[derive(Debug, PartialEq, Eq, Structural)]
pub struct RawWakerVTable;

/// The one table of this crate. Every handle points at it.
pub const NOOP_WAKER_VTABLE: RawWakerVTable = RawWakerVTable;

/// A raw handle: the context word, and the table whose operations receive it.
#[derive(Debug, PartialEq, Eq, Structural)]
pub struct RawWaker {
    /// The address of the context; [`NULL`] where there is none.
    pub data: usize,
    /// The operations of this handle.
    pub vtable: &'static RawWakerVTable,
}

impl RawWaker {
    /// The no-op handle: no context, and the no-op table.
    pub open spec fn noop() -> RawWaker {
        RawWaker { data: NULL, vtable: &NOOP_WAKER_VTABLE }
    }
}

impl RawWakerVTable {
    /// The clone operation, which a handle calls with its context word to make
    /// another handle. It is bound to [`noop_clone`], so the new handle has no
    /// context, whatever `data` is.
    pub fn clone(&self, data: usize) -> (raw: RawWaker)
        ensures
            raw == RawWaker::noop(),
        opens_invariants none
        no_unwind
    {
        noop_clone(data)
    }

    /// The wake operation, which a handle calls to notify and to give itself
    /// up. It is bound to [`noop`]: nobody is notified.
    pub fn wake(&self, data: usize)
        opens_invariants none
        no_unwind
    {
        noop(data)
    }

    /// The wake-by-reference operation, which a handle calls to notify and to
    /// stay valid. It is bound to [`noop`]: nobody is notified.
    pub fn wake_by_ref(&self, data: usize)
        opens_invariants none
        no_unwind
    {
        noop(data)
    }

    /// The drop operation, which a handle calls when it is discarded without
    /// having been woken. It is bound to [`noop`]: there is nothing to release.
    pub fn drop(&self, data: usize)
        opens_invariants none
        no_unwind
    {
        noop(data)
    }
}

/// Clones a no-op handle. The context word that comes in is not looked at,
/// and the handle that goes out has none.
pub fn noop_clone(_data: usize) -> (raw: RawWaker)
    ensures
        raw == RawWaker::noop(),
    opens_invariants none
    no_unwind
{
    noop_raw_waker()
}

/// Does nothing with the context word that it is given.
pub fn noop(_data: usize)
    opens_invariants none
    no_unwind
{
}

/// Makes the no-op raw handle: the null context next to the no-op table.
pub fn noop_raw_waker() -> (raw: RawWaker)
    ensures
        raw == RawWaker::noop(),
    opens_invariants none
    no_unwind
{
    RawWaker { data: NULL, vtable: &NOOP_WAKER_VTABLE }
}

} // verus!
