//! The wake notifier: single-slot registration of the one suspended
//! consumer. The slot is futures' `AtomicWaker`, safe to trigger from
//! interrupt context; what is stated of it here is believed.

use vstd::prelude::*;
use core::task::Waker;
use futures_util::task::AtomicWaker;

verus! {

/// A resume handle for a suspended task, declared so that it can pass
/// through verified signatures. Verus sees nothing inside it.
#[verifier::external_type_specification]
#[verifier::external_body]
pub struct ExWaker(Waker);

/// futures' single-slot waker cell, declared so that it can stand in a
/// verified field.
#[verifier::external_type_specification]
#[verifier::external_body]
pub struct ExAtomicWaker(AtomicWaker);

/// Whether the slot currently holds a registered resume handle.
pub uninterp spec fn atomic_waker_occupied(w: AtomicWaker) -> bool;

/// Relies on `futures_util::task::AtomicWaker::new`: a slot with nothing
/// registered.
#[verifier::external_body]
fn atomic_waker_new() -> (w: AtomicWaker)
    ensures
        !atomic_waker_occupied(w),
{
    AtomicWaker::new()
}

/// Relies on `futures_util::task::AtomicWaker::register`: stores the handle,
/// overwriting any earlier registration — only the most recent waiter is
/// kept. It neither blocks nor allocates.
#[verifier::external_body]
fn atomic_waker_register(w: &mut AtomicWaker, waker: &Waker)
    ensures
        atomic_waker_occupied(*final(w)),
{
    w.register(waker)
}

/// Relies on `futures_util::task::AtomicWaker::take`: hands out the
/// registered handle, if one is there, and leaves the slot empty.
#[verifier::external_body]
fn atomic_waker_take(w: &mut AtomicWaker) -> (r: Option<Waker>)
    ensures
        !atomic_waker_occupied(*final(w)),
        r is Some <==> atomic_waker_occupied(*old(w)),
{
    w.take()
}

/// Relies on `futures_util::task::AtomicWaker::wake`: wakes the registered
/// task, if one is there, and clears the slot; with nothing registered it is
/// a harmless no-op. It neither blocks nor allocates.
#[verifier::external_body]
fn atomic_waker_wake(w: &mut AtomicWaker)
    ensures
        !atomic_waker_occupied(*final(w)),
{
    w.wake()
}

/// Holds at most one pending resume handle for the suspended consumer;
/// repeated registration overwrites, it never queues.
pub struct WakeNotifier {
    slot: AtomicWaker,
}

impl WakeNotifier {
    /// Whether a resume handle is currently registered.
    pub closed spec fn has_waiter(&self) -> bool {
        atomic_waker_occupied(self.slot)
    }

    /// A notifier with no registered waiter.
    pub fn new() -> (n: WakeNotifier)
        ensures
            !n.has_waiter(),
    {
        WakeNotifier { slot: atomic_waker_new() }
    }

    /// Registers the calling task's resume handle, overwriting any earlier
    /// registration.
    pub fn register(&mut self, waker: &Waker)
        ensures
            final(self).has_waiter(),
    {
        atomic_waker_register(&mut self.slot, waker)
    }

    /// Clears the registration, handing back the handle that was registered,
    /// if any.
    pub fn take(&mut self) -> (r: Option<Waker>)
        ensures
            !final(self).has_waiter(),
            r is Some <==> old(self).has_waiter(),
    {
        atomic_waker_take(&mut self.slot)
    }

    /// Triggers the notifier: schedules the registered task for resumption,
    /// if one is there, and clears the registration; triggering with no
    /// registered waiter is a harmless no-op.
    pub fn wake(&mut self)
        ensures
            !final(self).has_waiter(),
    {
        atomic_waker_wake(&mut self.slot)
    }
}

} // verus!
