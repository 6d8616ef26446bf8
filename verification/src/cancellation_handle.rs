use vstd::prelude::*;

verus! {

/// A cooperative, level-triggered cancellation signal.
///
/// The signal starts armed, moves to cancelled at the first `cancel` call and
/// stays cancelled forever: no operation rearms it, so every observer that
/// asks after the first `cancel` — however late — sees it cancelled.
pub struct CancellationHandle {
    cancelled: bool,
}

impl CancellationHandle {
    /// True once `cancel` has been called at least once.
    pub closed spec fn spec_cancelled(&self) -> bool {
        self.cancelled
    }

    /// A fresh handle is armed, not cancelled.
    pub fn new() -> (h: Self)
        ensures
            !h.spec_cancelled(),
    {
        CancellationHandle { cancelled: false }
    }

    /// Fire the signal. Idempotent and safe to repeat: afterwards the handle
    /// is cancelled whatever its previous state was.
    pub fn cancel(&mut self)
        ensures
            final(self).spec_cancelled(),
            final(self).spec_cancelled() == cancelled_after(old(self).spec_cancelled(), 1),
    {
        self.cancelled = true;
    }

    /// Observe the signal without consuming it.
    pub fn is_cancelled(&self) -> (b: bool)
        ensures
            b == self.spec_cancelled(),
    {
        self.cancelled
    }
}

/// The state of a signal that started in state `initial` after `cancels`
/// further calls of `cancel`: cancelled exactly when it already was, or at
/// least one call has fired.
pub open spec fn cancelled_after(initial: bool, cancels: nat) -> bool {
    initial || cancels > 0
}

/// After any sequence of one or more `cancel` calls on one handle the signal
/// reads cancelled, and it still reads cancelled after every longer sequence:
/// the first call fires it and no later call — nor anything else — rearms it.
pub proof fn lemma_cancellation_monotone(initial: bool, n: nat, m: nat)
    requires
        1 <= n <= m,
    ensures
        cancelled_after(initial, n),
        cancelled_after(initial, m),
{
}

} // verus!
