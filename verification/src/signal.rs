//! The stop signal: one shot, idempotent, observed by any number of tasks.
//!
//! Tasks await the shared `zenoh_sync::Signal`. A [`StopSignal`] owns one,
//! triggers it, and remembers that it did.

use vstd::prelude::*;

verus! {

/// `zenoh_sync::Signal`, carried through as an opaque value.
#[verifier::external_type_specification]
#[verifier::external_body]
pub struct ExSignal(zenoh_sync::Signal);

/// `zenoh_sync::Signal::new` allocates a signal. Nothing is claimed of it.
pub assume_specification[ zenoh_sync::Signal::new ]() -> (r: zenoh_sync::Signal)
;

/// `zenoh_sync::Signal::trigger` wakes the tasks that wait on the signal.
/// It returns on every signal; nothing is claimed of its effect.
pub assume_specification[ zenoh_sync::Signal::trigger ](signal: &zenoh_sync::Signal)
;

/// The derived `Clone` of `zenoh_sync::Signal`. The struct has one field,
/// a reference-counted pointer to the shared state, and the derived clone
/// copies that pointer: the new handle is on the same signal, which is what
/// equality of two handles means here.
pub assume_specification[ <zenoh_sync::Signal as Clone>::clone ](
    signal: &zenoh_sync::Signal,
) -> (r: zenoh_sync::Signal)
    ensures
        r == *signal,
;

/// A request to stop that, once made, stays made. Its value is whether it
/// was made through this owner.
pub struct StopSignal {
    shared: zenoh_sync::Signal,
    triggered: bool,
}

impl View for StopSignal {
    type V = bool;

    closed spec fn view(&self) -> bool {
        self.triggered
    }
}

impl StopSignal {
    /// The shared signal that this owner triggers and that tasks wait on.
    pub closed spec fn handle(&self) -> zenoh_sync::Signal {
        self.shared
    }

    /// A signal that was not triggered.
    pub fn new() -> (r: Self)
        ensures
            !r@,
    {
        StopSignal { shared: zenoh_sync::Signal::new(), triggered: false }
    }

    /// Triggers the signal. Triggering it again changes nothing. The shared
    /// signal stays the one it was.
    pub fn trigger(&mut self)
        ensures
            final(self)@,
            final(self).handle() == old(self).handle(),
    {
        if !self.triggered {
            self.shared.trigger();
            self.triggered = true;
        }
    }

    /// Whether the signal was triggered.
    pub fn is_triggered(&self) -> (r: bool)
        ensures
            r == self@,
    {
        self.triggered
    }

    /// A handle on the shared signal, for a task to wait on: the very signal
    /// that [`StopSignal::trigger`] triggers.
    pub fn observer(&self) -> (r: zenoh_sync::Signal)
        ensures
            r == self.handle(),
    {
        self.shared.clone()
    }
}

} // verus!
