//! Exclusive-access cell for settings shared with asynchronous contexts.
//!
//! On the device the settings record is also touched by interrupt-driven
//! handlers, so every read or write goes through one guarded scope that
//! holds off such contexts for its duration. `Static` is that guard:
//! `with` is the sole path to the inner value, and its contract states the
//! atomicity that the scope buys — the value observed after the call is
//! exactly the one the guarded operation computed from the value before
//! it, with no interleaved state in between.

use vstd::prelude::*;

verus! {

/// A cell whose inner value is reachable only through one exclusive,
/// run-to-completion scope per access.
pub struct Static<T> {
    inner: T,
}

impl<T> Static<T> {
    /// The current inner value.
    pub closed spec fn value(&self) -> T {
        self.inner
    }

    /// Wrap `inner` for guarded access.
    pub fn new(inner: T) -> (s: Self)
        ensures
            s.value() == inner,
    {
        Static { inner }
    }
}

impl<T: Copy> Static<T> {
    /// Run `f` exclusively over the inner value: `f` maps the value before
    /// the call to the value after it plus a result, and nothing observes
    /// or mutates the cell while `f` runs. `f` must be short and
    /// non-blocking, since concurrent contexts are held off for its whole
    /// duration.
    pub fn with<F, R>(&mut self, f: F) -> (r: R) where F: FnOnce(T) -> (T, R)
        requires
            call_requires(f, (old(self).value(),)),
        ensures
            call_ensures(f, (old(self).value(),), (final(self).value(), r)),
    {
        let cur: T = self.inner;
        let (next, r) = f(cur);
        self.inner = next;
        r
    }
}

} // verus!
