//! Input-timing and display logic for a two-button LED effect device.
//!
//! The crate covers the stateful core of the device: the press-edge /
//! hold-repeat timer state machine, the button abstraction that binds a
//! timer to an action, the cyclic menu selector, the exclusively-guarded
//! shared settings record (brightness, phase offset), and the deterministic
//! color-sequence generator. Hardware transport (pins, pixel bus, display
//! bus) stays outside; it hands the core plain values and takes plain
//! values back.

pub mod action;
pub mod button;
pub mod effects;
pub mod exclusive;
pub mod menu;
pub mod panel;
pub mod state;
pub mod timer;
