//! Press-edge / hold-repeat timer state machine.
//!
//! A timer turns a stream of (pressed, elapsed-milliseconds) samples into
//! trigger pulses: the first sample of a press fires immediately (edge
//! trigger), and while the press is held a further trigger fires every
//! `interval_ms` of accumulated time. On a repeat trigger the interval is
//! subtracted from the accumulator instead of clearing it, so a slightly
//! late poll does not desynchronize the repeat cadence. A released sample
//! always clears the accumulator and re-arms the edge trigger.

use vstd::prelude::*;

verus! {

/// Accumulator addition: 32-bit counters wrap on overflow by design.
pub open spec fn wrap_add32(a: u32, b: u32) -> u32 {
    vstd::wrapping::u32_specs::wrapping_add(a, b)
}

/// The accumulated milliseconds after one step of the timer state machine.
pub open spec fn timer_next_acc(
    interval: u32,
    acc: u32,
    held: bool,
    pressed: bool,
    elapsed: u32,
) -> u32 {
    if !pressed {
        0
    } else if !held {
        0
    } else if wrap_add32(acc, elapsed) >= interval {
        (wrap_add32(acc, elapsed) - interval) as u32
    } else {
        wrap_add32(acc, elapsed)
    }
}

/// Whether the timer is in the held state after one step: exactly when the
/// sample said pressed.
pub open spec fn timer_next_held(pressed: bool) -> bool {
    pressed
}

/// Whether one step of the timer state machine fires a trigger: on the
/// released-to-pressed edge, and on every full interval accumulated while
/// the press is held.
pub open spec fn timer_fires(
    interval: u32,
    acc: u32,
    held: bool,
    pressed: bool,
    elapsed: u32,
) -> bool {
    pressed && (!held || wrap_add32(acc, elapsed) >= interval)
}

/// A per-button trigger source driven by (pressed, elapsed) samples.
///
/// Every implementation steps exactly by `timer_next_acc` / `timer_fires`
/// over its abstract state, so a `Button` gets the same guarantees from
/// any timer it is built with.
pub trait CustomTimer: Sized {
    /// The fixed repeat interval in milliseconds.
    spec fn interval(&self) -> u32;

    /// Milliseconds accumulated since the last trigger while held.
    spec fn acc(&self) -> u32;

    /// Whether the previous sample said the input was pressed.
    spec fn held(&self) -> bool;

    /// Feed one sample; the result says whether a trigger fired this call.
    fn update(&mut self, pressed: bool, elapsed_ms: u32) -> (fired: bool)
        ensures
            final(self).interval() == old(self).interval(),
            final(self).held() == timer_next_held(pressed),
            final(self).acc() == timer_next_acc(
                old(self).interval(),
                old(self).acc(),
                old(self).held(),
                pressed,
                elapsed_ms,
            ),
            fired == timer_fires(
                old(self).interval(),
                old(self).acc(),
                old(self).held(),
                pressed,
                elapsed_ms,
            ),
    ;
}

/// Hold-repeat timer: edge trigger on press, then one trigger per full
/// interval while held, keeping the remainder for phase accuracy.
pub struct PressTimer {
    interval_ms: u32,
    acc_ms: u32,
    was_pressed: bool,
}

impl PressTimer {
    /// A released timer with an empty accumulator. `interval_ms` is fixed
    /// for the life of the timer; 0 is a valid degenerate configuration
    /// that fires on every held sample.
    pub fn new(interval_ms: u32) -> (t: Self)
        ensures
            t.interval() == interval_ms,
            t.acc() == 0,
            !t.held(),
    {
        PressTimer { interval_ms, acc_ms: 0, was_pressed: false }
    }

    /// Feed one sample; the result says whether a trigger fired this call.
    pub fn update(&mut self, pressed: bool, elapsed_ms: u32) -> (fired: bool)
        ensures
            final(self).interval() == old(self).interval(),
            final(self).held() == timer_next_held(pressed),
            final(self).acc() == timer_next_acc(
                old(self).interval(),
                old(self).acc(),
                old(self).held(),
                pressed,
                elapsed_ms,
            ),
            fired == timer_fires(
                old(self).interval(),
                old(self).acc(),
                old(self).held(),
                pressed,
                elapsed_ms,
            ),
    {
        if pressed {
            if !self.was_pressed {
                // Edge: released -> pressed fires immediately.
                self.was_pressed = true;
                self.acc_ms = 0;
                true
            } else {
                self.acc_ms = self.acc_ms.wrapping_add(elapsed_ms);
                if self.acc_ms >= self.interval_ms {
                    // Keep the remainder for phase correctness.
                    self.acc_ms = self.acc_ms - self.interval_ms;
                    true
                } else {
                    false
                }
            }
        } else {
            // Released: re-arm so the next press fires immediately.
            self.was_pressed = false;
            self.acc_ms = 0;
            false
        }
    }
}

impl CustomTimer for PressTimer {
    closed spec fn interval(&self) -> u32 {
        self.interval_ms
    }

    closed spec fn acc(&self) -> u32 {
        self.acc_ms
    }

    closed spec fn held(&self) -> bool {
        self.was_pressed
    }

    fn update(&mut self, pressed: bool, elapsed_ms: u32) -> (fired: bool) {
        PressTimer::update(self, pressed, elapsed_ms)
    }
}

/// Hold-repeat timer with the same observable behavior as `PressTimer`;
/// kept as a distinct type so a planned stricter re-arm rule (requiring a
/// full release before a new edge) can land without touching its users.
pub struct StrictPressTimer {
    interval_ms: u32,
    acc_ms: u32,
    was_pressed: bool,
}

impl StrictPressTimer {
    /// A released timer with an empty accumulator.
    pub fn new(interval_ms: u32) -> (t: Self)
        ensures
            t.interval() == interval_ms,
            t.acc() == 0,
            !t.held(),
    {
        StrictPressTimer { interval_ms, acc_ms: 0, was_pressed: false }
    }

    /// Feed one sample; the result says whether a trigger fired this call.
    pub fn update(&mut self, pressed: bool, elapsed_ms: u32) -> (fired: bool)
        ensures
            final(self).interval() == old(self).interval(),
            final(self).held() == timer_next_held(pressed),
            final(self).acc() == timer_next_acc(
                old(self).interval(),
                old(self).acc(),
                old(self).held(),
                pressed,
                elapsed_ms,
            ),
            fired == timer_fires(
                old(self).interval(),
                old(self).acc(),
                old(self).held(),
                pressed,
                elapsed_ms,
            ),
    {
        if pressed {
            if !self.was_pressed {
                self.was_pressed = true;
                self.acc_ms = 0;
                true
            } else {
                self.acc_ms = self.acc_ms.wrapping_add(elapsed_ms);
                if self.acc_ms >= self.interval_ms {
                    self.acc_ms = self.acc_ms - self.interval_ms;
                    true
                } else {
                    false
                }
            }
        } else {
            self.was_pressed = false;
            self.acc_ms = 0;
            false
        }
    }
}

impl CustomTimer for StrictPressTimer {
    closed spec fn interval(&self) -> u32 {
        self.interval_ms
    }

    closed spec fn acc(&self) -> u32 {
        self.acc_ms
    }

    closed spec fn held(&self) -> bool {
        self.was_pressed
    }

    fn update(&mut self, pressed: bool, elapsed_ms: u32) -> (fired: bool) {
        StrictPressTimer::update(self, pressed, elapsed_ms)
    }
}

/// Law: a released sample always clears the accumulator, leaves the held
/// state, and fires nothing — and the press sample immediately after is
/// always an edge trigger, whatever the state was before the release.
pub proof fn lemma_release_resets_and_rearms(
    interval: u32,
    acc: u32,
    held: bool,
    e1: u32,
    e2: u32,
)
    ensures
        timer_next_acc(interval, acc, held, false, e1) == 0,
        !timer_next_held(false),
        !timer_fires(interval, acc, held, false, e1),
        timer_fires(
            interval,
            timer_next_acc(interval, acc, held, false, e1),
            timer_next_held(false),
            true,
            e2,
        ),
{
}

/// Law: as long as each poll's elapsed time stays within the interval, the
/// accumulator keeps the phase invariant "below the interval, or zero" —
/// in particular it holds again after every call that returns a trigger.
pub proof fn lemma_acc_keeps_phase_invariant(
    interval: u32,
    acc: u32,
    held: bool,
    pressed: bool,
    elapsed: u32,
)
    requires
        elapsed <= interval,
        acc < interval || acc == 0,
    ensures
        timer_next_acc(interval, acc, held, pressed, elapsed) < interval
            || timer_next_acc(interval, acc, held, pressed, elapsed) == 0,
{
}

/// Law: while the input stays released, every step returns no trigger and
/// leaves the accumulated time at 0, whatever elapsed time it is fed.
pub proof fn lemma_released_stays_idle(interval: u32, held: bool, elapsed: u32)
    ensures
        timer_next_acc(interval, 0, held, false, elapsed) == 0,
        !timer_fires(interval, 0, held, false, elapsed),
        !timer_next_held(false),
{
}

} // verus!
