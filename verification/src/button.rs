//! A physical button bound to a trigger timer and an action.
//!
//! Each poll hands the button the sampled pressed state (the input source
//! resolves active-low wiring and read faults to a plain bool before it
//! gets here) together with the elapsed milliseconds. The button drives
//! its timer with the sample and, when the timer fires, synchronously
//! invokes its action exactly once before returning whether it fired.

use crate::action::Action;
use crate::timer::{timer_fires, timer_next_acc, timer_next_held, CustomTimer};
use vstd::prelude::*;

verus! {

/// One button: a trigger timer plus the action it fires.
pub struct Button<T, A> {
    timer: T,
    action: A,
}

impl<T: CustomTimer, A> Button<T, A> {
    /// The bound timer.
    pub closed spec fn timer(&self) -> T {
        self.timer
    }

    /// The bound action.
    pub closed spec fn action(&self) -> A {
        self.action
    }

    /// Bind a timer and an action into a button.
    pub fn new(timer: T, action: A) -> (b: Self)
        ensures
            b.timer() == timer,
            b.action() == action,
    {
        Button { timer, action }
    }

    /// One poll: drive the timer with the sampled pressed state, and when
    /// it triggers, run the action once on `target`. The action executes
    /// to completion before the call returns; a poll invokes it at most
    /// once.
    pub fn update<S>(&mut self, pressed: bool, elapsed_ms: u32, target: &mut S) -> (fired:
        bool) where A: Action<S>
        requires
            old(self).action().pre(*old(target)),
        ensures
            fired == timer_fires(
                old(self).timer().interval(),
                old(self).timer().acc(),
                old(self).timer().held(),
                pressed,
                elapsed_ms,
            ),
            final(self).timer().interval() == old(self).timer().interval(),
            final(self).timer().held() == timer_next_held(pressed),
            final(self).timer().acc() == timer_next_acc(
                old(self).timer().interval(),
                old(self).timer().acc(),
                old(self).timer().held(),
                pressed,
                elapsed_ms,
            ),
            fired ==> *final(target) == old(self).action().effect(*old(target)),
            !fired ==> *final(target) == *old(target) && final(self).action() == old(
                self,
            ).action(),
    {
        if self.timer.update(pressed, elapsed_ms) {
            self.action.invoke(target);
            true
        } else {
            false
        }
    }
}

} // verus!
