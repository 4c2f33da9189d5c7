//! Wakeups between the tasks that own a status and the tasks that publish it.

use core::future::Future;
use core::pin::Pin;
use core::task::Context;
use embassy_sync::blocking_mutex::raw::CriticalSectionRawMutex;
use embassy_sync::signal::Signal;
use vstd::prelude::*;

verus! {

/// Declares [`Context`], the handle through which a polled task asks to be
/// woken. Nothing is claimed of it.
#[verifier::external_type_specification]
#[verifier::external_body]
pub struct ExContext<'a>(core::task::Context<'a>);

/// A wakeup: an [`embassy_sync::signal::Signal`] that carries no value. Its slot
/// is empty, holds the waker of a task that waits, or is raised.
///
/// The slot changes only through an exclusive borrow, so that nothing else
/// raises or takes it during a call.
#[verifier::external_body]
pub struct Wakeup {
    signal: Signal<CriticalSectionRawMutex, ()>,
}

/// Whether a wakeup has been raised and not been taken since.
pub uninterp spec fn is_raised(wakeup: Wakeup) -> bool;

/// Whether a task waits for a wakeup: its waker is stored, and the next raise
/// calls it.
pub uninterp spec fn is_awaited(wakeup: Wakeup) -> bool;

/// [`Signal::new`]: the slot of a new signal is empty.
#[verifier::external_body]
fn signal_new() -> (wakeup: Wakeup)
    ensures
        !is_raised(wakeup),
        !is_awaited(wakeup),
{
    Wakeup { signal: Signal::new() }
}

/// [`Signal::signal`]: raises the slot, whatever it held before. The waker of a
/// task that waits is taken out and called, so no task waits afterwards. That
/// the executor then polls the task is not stated.
#[verifier::external_body]
fn signal_raise(wakeup: &mut Wakeup)
    ensures
        is_raised(*final(wakeup)),
        !is_awaited(*final(wakeup)),
{
    wakeup.signal.signal(())
}

/// [`Signal::try_take`]: empties a raised slot and says whether it was raised. A
/// task that waits keeps waiting.
#[verifier::external_body]
fn signal_try_take(wakeup: &mut Wakeup) -> (taken: Option<()>)
    ensures
        taken is Some <==> is_raised(*old(wakeup)),
        !is_raised(*final(wakeup)),
        is_awaited(*final(wakeup)) == is_awaited(*old(wakeup)),
{
    wakeup.signal.try_take()
}

/// One poll of [`Signal::wait`]: empties a raised slot and says whether it was
/// raised. Where it was not, the waker behind `cx` is stored, in place of one
/// stored before, and a task waits; where it was, none does. That the stored
/// waker is the one behind `cx` is not stated.
#[verifier::external_body]
fn signal_poll_wait(wakeup: &mut Wakeup, cx: &mut Context<'_>) -> (ready: bool)
    ensures
        ready <==> is_raised(*old(wakeup)),
        !is_raised(*final(wakeup)),
        is_awaited(*final(wakeup)) <==> !is_raised(*old(wakeup)),
{
    let mut wait = wakeup.signal.wait();
    Pin::new(&mut wait).poll(cx).is_ready()
}

/// What a [`Wakeup`] stands for.
pub struct WakeupState {
    /// Whether it has been raised and not been taken since.
    pub raised: bool,
    /// Whether a task waits for it.
    pub awaited: bool,
}

impl View for Wakeup {
    type V = WakeupState;

    open spec fn view(&self) -> WakeupState {
        WakeupState { raised: is_raised(*self), awaited: is_awaited(*self) }
    }
}

impl Wakeup {
    /// A wakeup that is not raised and that no task waits for.
    pub fn new() -> (wakeup: Self)
        ensures
            wakeup@ == (WakeupState { raised: false, awaited: false }),
    {
        signal_new()
    }

    /// Raises the wakeup, and wakes the task that waits for it. Raising it again
    /// before it is taken changes nothing.
    pub fn notify(&mut self)
        ensures
            final(self)@ == (WakeupState { raised: true, awaited: false }),
    {
        signal_raise(self);
    }

    /// Takes the wakeup if it is raised. A task that waits keeps waiting.
    pub fn try_take(&mut self) -> (taken: Option<()>)
        ensures
            taken is Some <==> old(self)@.raised,
            final(self)@ == (WakeupState { raised: false, awaited: old(self)@.awaited }),
    {
        signal_try_take(self)
    }

    /// Takes the wakeup if it is raised, and otherwise lets the task behind `cx`
    /// wait for it.
    pub fn poll_wait(&mut self, cx: &mut Context<'_>) -> (ready: bool)
        ensures
            ready <==> old(self)@.raised,
            final(self)@ == (WakeupState { raised: false, awaited: !ready }),
    {
        signal_poll_wait(self, cx)
    }
}

} // verus!
