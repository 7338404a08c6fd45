//! The invocable capability bound into buttons and menu items.
//!
//! An action is a stateful, argument-less operation on some target: a
//! button runs its action when its timer fires, and a menu item's action
//! runs when the item is selected and executed. The trait fixes the
//! action's observable meaning as a function from target value to target
//! value, so every composition over actions keeps an exact contract.

use vstd::prelude::*;

verus! {

/// A single-method invocable capability over a target of type `S`.
pub trait Action<S>: Sized {
    /// The targets the action may be invoked on.
    spec fn pre(&self, target: S) -> bool;

    /// The target value the invocation leaves behind.
    spec fn effect(&self, target: S) -> S;

    /// Run the action once, to completion, on `target`.
    fn invoke(&mut self, target: &mut S)
        requires
            old(self).pre(*old(target)),
        ensures
            *final(target) == old(self).effect(*old(target)),
    ;
}

} // verus!
