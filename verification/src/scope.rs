//! A scope guard over the byte counter: it remembers the counter when the
//! scope opens and demands, at the close of the scope, that the counter is
//! back at that baseline, so a leak is pinned to the block it happened in.

use vstd::prelude::*;

use crate::LeakDetector;

verus! {

/// Remembers the byte counter of a detector at the moment a scope opened.
pub struct LeakDetectorScope {
    start: usize,
}

impl LeakDetectorScope {
    /// The counter value captured when the scope was opened.
    pub closed spec fn start_bytes(self) -> nat {
        self.start as nat
    }

    /// The exit check of the scope: the detector's counter must be back at
    /// the opening baseline. A caller whose scope made more allocations than
    /// it gave back cannot meet this precondition, so the leak is rejected
    /// at verification time, localized to the unbalanced scope.
    pub fn close<T>(self, detector: &LeakDetector<T>)
        requires
            detector.used_bytes() == self.start_bytes(),
    {
        let end = detector.get_used();
        assert(end == self.start);
    }
}

impl<T> LeakDetector<T> {
    /// Open a scope: capture the current counter as the baseline that the
    /// matching `close` call will check against. Scopes nest freely; each
    /// one carries its own baseline.
    pub fn scope(&self) -> (s: LeakDetectorScope)
        ensures
            s.start_bytes() == self.used_bytes(),
    {
        LeakDetectorScope { start: self.get_used() }
    }

    /// Run a unit of work under a scope guard: the work receives the
    /// detector, may allocate and deallocate through it, and must hand it
    /// back with the counter where it started; the guard's exit check runs
    /// on the way out and the work's result is returned beside the detector.
    pub fn scope_with<F, R>(self, f: F) -> (res: (LeakDetector<T>, R)) where
        F: FnOnce(LeakDetector<T>) -> (LeakDetector<T>, R),

        requires
            call_requires(f, (self,)),
            forall|out: (LeakDetector<T>, R)|
                call_ensures(f, (self,), out) ==> out.0.used_bytes() == self.used_bytes(),
        ensures
            call_ensures(f, (self,), res),
            res.0.used_bytes() == self.used_bytes(),
    {
        let guard = self.scope();
        let out = f(self);
        guard.close(&out.0);
        out
    }
}

/// The guard law: for a scope opened on a detector, the exit check accepts a
/// later detector state exactly when its counter is back at the counter seen
/// at the opening — balanced traffic inside the scope passes, a net change
/// does not.
pub proof fn lemma_scope_exit_check<T>(
    d_open: LeakDetector<T>,
    d_close: LeakDetector<T>,
    s: LeakDetectorScope,
)
    requires
        s.start_bytes() == d_open.used_bytes(),
    ensures
        d_close.used_bytes() == s.start_bytes() <==> d_close.used_bytes()
            == d_open.used_bytes(),
{
}

} // verus!
