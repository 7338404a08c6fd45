//! The application context the two buttons act on.
//!
//! A `Panel` owns the menu and the settings record, and the two
//! button-level actions close the loop: one advances the menu selection,
//! the other runs the selected item's settings adjustment.

use crate::action::Action;
use crate::menu::{spec_next, Menu};
use crate::state::{State, StateAction};
use vstd::prelude::*;

verus! {

/// The menu and the settings it adjusts, owned together by the polling
/// loop.
pub struct Panel<'a> {
    /// The cyclic menu of settings adjustments.
    pub menu: Menu<'a, StateAction>,
    /// The settings the menu items adjust.
    pub state: State,
}

impl<'a> Panel<'a> {
    /// The menu selection is a valid index.
    pub open spec fn wf(&self) -> bool {
        self.menu.wf()
    }
}

/// Button action: advance the menu selection one position, wrapping.
#[derive(Clone, Copy, PartialEq, Eq, Structural, Debug)]
pub struct MenuNext;

impl<'a> Action<Panel<'a>> for MenuNext {
    open spec fn pre(&self, target: Panel<'a>) -> bool {
        target.wf()
    }

    open spec fn effect(&self, target: Panel<'a>) -> Panel<'a> {
        Panel { menu: spec_next(target.menu), state: target.state }
    }

    fn invoke(&mut self, target: &mut Panel<'a>) {
        target.menu.next();
    }
}

/// Button action: run the selected menu item's adjustment on the settings.
#[derive(Clone, Copy, PartialEq, Eq, Structural, Debug)]
pub struct RunSelected;

impl<'a> Action<Panel<'a>> for RunSelected {
    open spec fn pre(&self, target: Panel<'a>) -> bool {
        target.wf()
    }

    open spec fn effect(&self, target: Panel<'a>) -> Panel<'a> {
        Panel {
            menu: target.menu,
            state: target.menu.items[target.menu.selected as int].action.apply(target.state),
        }
    }

    fn invoke(&mut self, target: &mut Panel<'a>) {
        let mut action = target.menu.current_item().action;
        action.invoke(&mut target.state);
    }
}

} // verus!
