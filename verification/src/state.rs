//! The shared settings record and the actions that step it.
//!
//! `State` holds the two user-adjustable settings: the pixel brightness and
//! the phase offset of the color rotation. Button and menu actions write
//! it; the polling loop reads it each frame. All of its arithmetic is
//! unsigned and wraps by design — stepping past a bound is defined
//! behavior, never an error.

use crate::action::Action;
use vstd::prelude::*;

verus! {

/// Number of logical phase-offset positions.
pub const PHASE_POSITIONS: u8 = 8;

/// The user-adjustable settings shared between the buttons' actions and
/// the frame renderer.
#[derive(Clone, Copy, PartialEq, Eq, Structural, Debug)]
pub struct State {
    /// Intensity scalar applied to every emitted color.
    pub brightness: u8,
    /// Rotation of the repeating palette, logically `0..PHASE_POSITIONS`.
    pub phase_offset: u8,
}

impl State {
    /// The power-up settings: brightness 32, no rotation.
    pub fn new() -> (s: Self)
        ensures
            s.brightness == 32,
            s.phase_offset == 0,
    {
        State { brightness: 32, phase_offset: 0 }
    }
}

/// An adjustment of one `State` field, as bound into a menu item.
#[derive(Clone, Copy, PartialEq, Eq, Structural, Debug)]
pub enum StateAction {
    /// Advance the phase offset one position, wrapping at `PHASE_POSITIONS`.
    BumpOffset,
    /// Lower the brightness by the carried step, wrapping below zero.
    StepBrightnessDown(u8),
}

impl StateAction {
    /// The settings after one invocation on `s`.
    pub open spec fn apply(&self, s: State) -> State {
        match self {
            StateAction::BumpOffset => State {
                brightness: s.brightness,
                phase_offset: vstd::wrapping::u8_specs::wrapping_add(s.phase_offset, 1)
                    % PHASE_POSITIONS,
            },
            StateAction::StepBrightnessDown(step) => State {
                brightness: vstd::wrapping::u8_specs::wrapping_sub(s.brightness, *step),
                phase_offset: s.phase_offset,
            },
        }
    }
}

impl Action<State> for StateAction {
    open spec fn pre(&self, target: State) -> bool {
        true
    }

    open spec fn effect(&self, target: State) -> State {
        self.apply(target)
    }

    fn invoke(&mut self, target: &mut State) {
        match self {
            StateAction::BumpOffset => {
                target.phase_offset = target.phase_offset.wrapping_add(1) % PHASE_POSITIONS;
            },
            StateAction::StepBrightnessDown(step) => {
                target.brightness = target.brightness.wrapping_sub(*step);
            },
        }
    }
}

} // verus!
