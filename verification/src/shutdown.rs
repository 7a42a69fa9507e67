//! Coordinated shutdown.
//!
//! The coordinator is the single writer of a one-shot signal with any
//! number of observers. Triggering is idempotent: only the first call
//! changes anything, and once the signal is up it never goes down again.
//! The shell fans the flag out to its tasks over a broadcast channel and
//! sleeps out the grace period; the waiting itself cannot stand here.

use vstd::prelude::*;

verus! {

/// One observer of the shutdown signal, counted at subscription time.
pub struct ShutdownReceiver {
    /// Which subscription this was, in order of `subscribe` calls.
    pub index: usize,
}

impl ShutdownReceiver {
    /// Whether shutdown has begun, as this receiver observes it through
    /// its coordinator.
    pub fn is_shut_down(&self, coordinator: &ShutdownCoordinator) -> (r: bool)
        ensures
            r == coordinator.spec_triggered(),
    {
        coordinator.is_triggered()
    }
}

/// Coordinates graceful shutdown across the daemon.
pub struct ShutdownCoordinator {
    triggered: bool,
    subscribers: usize,
}

impl ShutdownCoordinator {
    /// True once shutdown has been signalled.
    pub closed spec fn spec_triggered(&self) -> bool {
        self.triggered
    }

    /// How many receivers have subscribed.
    pub closed spec fn spec_subscribers(&self) -> nat {
        self.subscribers as nat
    }

    /// A coordinator whose signal is down and with no subscribers yet.
    pub fn new() -> (r: ShutdownCoordinator)
        ensures
            !r.spec_triggered(),
            r.spec_subscribers() == 0,
    {
        ShutdownCoordinator { triggered: false, subscribers: 0 }
    }

    /// Register one more observer of the signal. A receiver subscribed
    /// before the trigger is woken by it; one subscribed after still
    /// observes the signal as already up.
    pub fn subscribe(&mut self) -> (r: ShutdownReceiver)
        requires
            old(self).spec_subscribers() < usize::MAX,
        ensures
            final(self).spec_subscribers() == old(self).spec_subscribers() + 1,
            final(self).spec_triggered() == old(self).spec_triggered(),
            r.index == old(self).spec_subscribers(),
    {
        let index = self.subscribers;
        self.subscribers = self.subscribers + 1;
        ShutdownReceiver { index }
    }

    /// Raise the shutdown signal. Idempotent: after any number of
    /// triggers the signal is up, and nothing else changes.
    pub fn trigger(&mut self)
        ensures
            final(self).spec_triggered(),
            final(self).spec_subscribers() == old(self).spec_subscribers(),
    {
        self.triggered = true;
    }

    /// Whether shutdown has begun.
    pub fn is_triggered(&self) -> (r: bool)
        ensures
            r == self.spec_triggered(),
    {
        self.triggered
    }

    /// Begin a graceful shutdown: raise the signal and hand the caller
    /// the grace period to sleep out before it terminates the process.
    /// The period is a fixed grace, not a wait-for-drained signal.
    pub fn shutdown(&mut self, timeout_secs: u64) -> (r: u64)
        ensures
            final(self).spec_triggered(),
            final(self).spec_subscribers() == old(self).spec_subscribers(),
            r == timeout_secs,
    {
        self.trigger();
        timeout_secs
    }
}

impl Default for ShutdownCoordinator {
    /// Same as `new`.
    fn default() -> (r: ShutdownCoordinator)
        ensures
            !r.spec_triggered(),
            r.spec_subscribers() == 0,
    {
        ShutdownCoordinator::new()
    }
}

} // verus!
