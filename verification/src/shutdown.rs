//! The shutdown signal: a broadcast that tells the producers to stop.

use std::sync::Arc;
use vstd::prelude::*;

verus! {

/// tokio's notification primitive; nothing of its inside is used here.
#[verifier::external_type_specification]
#[verifier::external_body]
pub struct ExNotify(tokio::sync::Notify);

/// Calls `tokio::sync::Notify::notify_waiters`, which wakes the tasks that
/// wait on `notify` at this moment. It returns nothing and nothing is
/// claimed of it.
#[verifier::external_body]
fn wake_waiters(notify: &Arc<tokio::sync::Notify>) {
    notify.notify_waiters();
}

/// A shutdown signal that is sent at most once.
///
/// Producers wait on the shared notification. The first [`fire`] wakes them;
/// every later one finds the signal fired and does nothing.
///
/// [`fire`]: ShutdownSignal::fire
pub struct ShutdownSignal {
    notify: Arc<tokio::sync::Notify>,
    fired: bool,
}

impl ShutdownSignal {
    /// Whether the signal has been sent.
    pub closed spec fn fired(&self) -> bool {
        self.fired
    }

    /// The notification that the waiters share.
    pub closed spec fn notify(&self) -> Arc<tokio::sync::Notify> {
        self.notify
    }

    /// The signal after it has been fired.
    pub closed spec fn after_fire(self) -> ShutdownSignal {
        ShutdownSignal { notify: self.notify, fired: true }
    }

    /// A signal over `notify` that has not been sent.
    pub fn new(notify: Arc<tokio::sync::Notify>) -> (signal: ShutdownSignal)
        ensures
            !signal.fired(),
            signal.notify() == notify,
    {
        ShutdownSignal { notify, fired: false }
    }

    /// Whether the signal has been sent.
    pub fn is_fired(&self) -> (fired: bool)
        ensures
            fired == self.fired(),
    {
        self.fired
    }

    /// Sends the signal unless it has been sent before. Returns whether this
    /// call was the one that sent it.
    pub fn fire(&mut self) -> (sent: bool)
        ensures
            *final(self) == old(self).after_fire(),
            sent == !old(self).fired(),
    {
        if self.fired {
            false
        } else {
            wake_waiters(&self.notify);
            self.fired = true;
            true
        }
    }

    /// A fired signal is sent, over the notification it had.
    pub proof fn lemma_after_fire(self)
        ensures
            self.after_fire().fired(),
            self.after_fire().notify() == self.notify(),
    {
    }

    /// Firing is idempotent: a signal fired twice is the signal fired once.
    pub proof fn lemma_fire_idempotent(self)
        ensures
            self.after_fire().after_fire() == self.after_fire(),
    {
    }

    /// Firing a signal that has been sent changes nothing.
    pub proof fn lemma_fire_again_is_noop(self)
        requires
            self.fired(),
        ensures
            self.after_fire() == self,
    {
    }
}

} // verus!
