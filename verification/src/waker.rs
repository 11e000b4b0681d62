//! The handle that is given out, owned or shared.

use vstd::prelude::*;
use crate::raw::{noop_raw_waker, RawWaker, RawWakerVTable, NOOP_WAKER_VTABLE, NULL};

verus! {

/// A wakeup handle over the no-op table.
///
/// Its raw handle is private and is always the no-op handle: the two entry
/// points make it so and cloning keeps it so. A handle owns nothing, so it has
/// no destructor: to discard one is to forget it.
#[derive(Debug, PartialEq, Eq, Structural)]
pub struct Waker {
    raw: RawWaker,
}

impl View for Waker {
    type V = RawWaker;

    closed spec fn view(&self) -> RawWaker {
        self.raw
    }
}

impl Waker {
    #[verifier::type_invariant]
    spec fn is_noop(self) -> bool {
        self.raw == RawWaker::noop()
    }

    /// Gives the handle up to the wake operation of its table, which notifies
    /// nobody.
    pub fn wake(self)
        opens_invariants none
        no_unwind
    {
        let raw = self.raw;
        raw.vtable.wake(raw.data)
    }

    /// Calls the wake-by-reference operation of the handle's table, which
    /// notifies nobody, and keeps the handle.
    pub fn wake_by_ref(&self)
        opens_invariants none
        no_unwind
    {
        self.raw.vtable.wake_by_ref(self.raw.data)
    }

    /// The context word of this handle: always [`NULL`].
    pub fn data(&self) -> (data: usize)
        ensures
            data == self@.data,
            data == NULL,
        opens_invariants none
        no_unwind
    {
        proof {
            use_type_invariant(self);
        }
        self.raw.data
    }

    /// The table of this handle: always [`NOOP_WAKER_VTABLE`].
    pub fn vtable(&self) -> (vtable: &'static RawWakerVTable)
        ensures
            vtable == self@.vtable,
            *vtable == NOOP_WAKER_VTABLE,
        opens_invariants none
        no_unwind
    {
        self.raw.vtable
    }
}

impl Clone for Waker {
    /// A new handle, made by the clone operation of this handle's table. It
    /// equals this one, and so has no context either.
    fn clone(&self) -> (waker: Waker)
        ensures
            waker == *self,
            waker@ == RawWaker::noop(),
    {
        proof {
            use_type_invariant(self);
        }
        Waker { raw: self.raw.vtable.clone(self.raw.data) }
    }
}

/// Makes a new no-op handle, owned by the caller.
pub fn noop_waker() -> (waker: Waker)
    ensures
        waker@ == RawWaker::noop(),
    opens_invariants none
    no_unwind
{
    Waker { raw: noop_raw_waker() }
}

/// The shared no-op handle, good for as long as the program runs.
///
/// It is kept out of line, so that every caller is handed the address of one
/// and the same instance.
#[inline(never)]
pub fn noop_waker_ref() -> (waker: &'static Waker)
    ensures
        waker@ == RawWaker::noop(),
    opens_invariants none
    no_unwind
{
    &Waker { raw: RawWaker { data: NULL, vtable: &NOOP_WAKER_VTABLE } }
}

/// Whether `waker` is a result of one of the two entry points.
pub open spec fn given_out(waker: Waker) -> bool {
    call_ensures(noop_waker, (), waker) || call_ensures(noop_waker_ref, (), &waker)
}

/// Whether each handle of `handles` was given out by an entry point or is a
/// clone of a handle that stands before it.
pub open spec fn given_out_or_cloned(handles: Seq<Waker>) -> bool {
    forall|i: int|
        0 <= i < handles.len() ==> given_out(#[trigger] handles[i]) || exists|j: int|
            0 <= j < i && call_ensures(Waker::clone, (&handles[j],), handles[i])
}

/// Any two calls for the shared handle return the same handle.
pub proof fn lemma_shared_handle_is_stable(first: &Waker, second: &Waker)
    requires
        call_ensures(noop_waker_ref, (), first),
        call_ensures(noop_waker_ref, (), second),
    ensures
        first == second,
{
}

/// An owned handle and the shared handle are the same value.
pub proof fn lemma_owned_handle_equals_shared(owned: Waker, shared: &Waker)
    requires
        call_ensures(noop_waker, (), owned),
        call_ensures(noop_waker_ref, (), shared),
    ensures
        owned == *shared,
{
}

/// However many clones are made, and of whichever handles, every handle has
/// the null context and the no-op table, all of them are equal, and each may
/// be woken, by value and by reference.
pub proof fn lemma_clones_are_noop_handles(handles: Seq<Waker>)
    requires
        given_out_or_cloned(handles),
    ensures
        forall|i: int| 0 <= i < handles.len() ==> (#[trigger] handles[i])@ == RawWaker::noop(),
        forall|i: int| 0 <= i < handles.len() ==> (#[trigger] handles[i])@.data == NULL,
        forall|i: int, j: int|
            0 <= i < handles.len() && 0 <= j < handles.len() ==> #[trigger] handles[i]
                == #[trigger] handles[j],
        forall|i: int|
            0 <= i < handles.len() ==> call_requires(Waker::wake, (#[trigger] handles[i],))
                && call_requires(Waker::wake_by_ref, (&handles[i],)),
{
}

} // verus!
