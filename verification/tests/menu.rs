use led_panel::menu::{Menu, MenuItem};
use led_panel::state::StateAction;

fn three_item_menu() -> Menu<'static, StateAction> {
    Menu::new(vec![
        MenuItem { name: "Offset", action: StateAction::BumpOffset },
        MenuItem { name: "Brightness", action: StateAction::StepBrightnessDown(32) },
        MenuItem { name: "Dim", action: StateAction::StepBrightnessDown(8) },
    ])
}

/// `next` called exactly as many times as there are items returns the
/// selection to its original position, and it stays a valid index all the
/// way round.
#[test]
fn next_full_cycle_returns_to_start() {
    let mut m = three_item_menu();
    m.next(); // start the cycle from 1, not just from the default 0
    let start = m.selected;
    for _ in 0..3 {
        m.next();
        assert!(m.selected < 3);
    }
    assert_eq!(m.selected, start);
    // Any number of further calls keeps the selection in range.
    for _ in 0..10 {
        m.next();
        assert!(m.selected < 3);
    }
}

/// `next` steps through the items in order and wraps past the last one.
#[test]
fn next_steps_in_order_and_wraps() {
    let mut m = three_item_menu();
    assert_eq!(m.selected, 0);
    assert_eq!(m.current_item().name, "Offset");
    m.next();
    assert_eq!(m.current_item().name, "Brightness");
    m.next();
    assert_eq!(m.current_item().name, "Dim");
    m.next();
    assert_eq!(m.current_item().name, "Offset");
}

/// `previous` from the first item wraps to the last one — the corrected
/// modular form, not the unsigned-decrement artifact.
#[test]
fn previous_wraps_to_last() {
    let mut m = three_item_menu();
    assert_eq!(m.selected, 0);
    m.previous();
    assert_eq!(m.selected, 2);
    m.previous();
    assert_eq!(m.selected, 1);
    m.previous();
    assert_eq!(m.selected, 0);
}

/// `previous` undoes `next`.
#[test]
fn previous_inverts_next() {
    let mut m = three_item_menu();
    m.next();
    m.previous();
    assert_eq!(m.selected, 0);
}

/// A one-item menu stays on its only item under both motions.
#[test]
fn single_item_menu_stays_put() {
    let mut m = Menu::new(vec![MenuItem { name: "Only", action: StateAction::BumpOffset }]);
    m.next();
    assert_eq!(m.selected, 0);
    m.previous();
    assert_eq!(m.selected, 0);
    assert_eq!(m.current_item().name, "Only");
}
