//! Cyclic menu of named actions.
//!
//! A menu owns a fixed, non-empty, ordered list of labelled actions and a
//! selection index. One button advances the selection (wrapping past the
//! end), another runs the selected item's action; the display shows the
//! selected label each frame. The selection is always a valid index.

use vstd::arithmetic::div_mod::{
    lemma_fundamental_div_mod, lemma_mod_add_multiples_vanish, lemma_mod_bound,
    lemma_mod_multiples_vanish, lemma_small_mod,
};
use vstd::prelude::*;

verus! {

/// A labelled action: the label is shown while the item is selected, the
/// action runs when the selected item is executed.
pub struct MenuItem<'a, A> {
    /// Text label shown on the display.
    pub name: &'a str,
    /// Operation run when this item is executed.
    pub action: A,
}

/// An ordered, fixed-length list of menu items plus the selected index.
pub struct Menu<'a, A> {
    /// The items, fixed at construction.
    pub items: Vec<MenuItem<'a, A>>,
    /// Index of the selected item; always below `items.len()`.
    pub selected: usize,
}

/// The selection index one `next` step after `s` among `n` items.
pub open spec fn next_index(s: int, n: int) -> int {
    (s + 1) % n
}

/// The selection index one `previous` step after `s` among `n` items.
pub open spec fn prev_index(s: int, n: int) -> int {
    (s + n - 1) % n
}

impl<'a, A> Menu<'a, A> {
    /// The selection is a valid index (so the item list is non-empty).
    pub open spec fn wf(&self) -> bool {
        self.selected < self.items.len()
    }

    /// A menu over `items` with the first item selected. A menu is never
    /// empty: advancing the selection steps modulo the item count.
    pub fn new(items: Vec<MenuItem<'a, A>>) -> (m: Self)
        requires
            items.len() > 0,
        ensures
            m.items == items,
            m.selected == 0,
            m.wf(),
    {
        Menu { items, selected: 0 }
    }

    /// Advance the selection one position, wrapping past the last item.
    pub fn next(&mut self)
        requires
            old(self).wf(),
        ensures
            final(self).items == old(self).items,
            final(self).selected == next_index(
                old(self).selected as int,
                old(self).items.len() as int,
            ),
            final(self).wf(),
    {
        self.selected = (self.selected + 1) % self.items.len();
    }

    /// Move the selection one position back, wrapping before the first
    /// item.
    pub fn previous(&mut self)
        requires
            old(self).wf(),
        ensures
            final(self).items == old(self).items,
            final(self).selected == prev_index(
                old(self).selected as int,
                old(self).items.len() as int,
            ),
            final(self).wf(),
    {
        proof {
            let n = self.items.len() as int;
            let s = self.selected as int;
            if s == 0 {
                lemma_small_mod((n - 1) as nat, n as nat);
            } else {
                lemma_mod_add_multiples_vanish(s - 1, n);
                lemma_small_mod((s - 1) as nat, n as nat);
            }
        }
        if self.selected == 0 {
            self.selected = self.items.len() - 1;
        } else {
            self.selected = self.selected - 1;
        }
    }

    /// The selected item; the selection being a valid index, this never
    /// fails.
    pub fn current_item(&self) -> (item: &MenuItem<'a, A>)
        requires
            self.wf(),
        ensures
            *item == self.items@[self.selected as int],
    {
        &self.items[self.selected]
    }
}

/// The menu value after one `next`, exactly as `next`'s contract states
/// it.
pub open spec fn spec_next<'a, A>(m: Menu<'a, A>) -> Menu<'a, A> {
    Menu {
        items: m.items,
        selected: next_index(m.selected as int, m.items.len() as int) as usize,
    }
}

/// The menu value after `k` calls of `next`.
pub open spec fn spec_nexts<'a, A>(m: Menu<'a, A>, k: nat) -> Menu<'a, A>
    decreases k,
{
    if k == 0 {
        m
    } else {
        spec_next(spec_nexts(m, (k - 1) as nat))
    }
}

/// After `k` calls of `next` the items are unchanged and the selection
/// sits `k` positions past where it started, modulo the item count — in
/// particular it is still a valid index.
pub proof fn lemma_spec_nexts_selected<'a, A>(m: Menu<'a, A>, k: nat)
    requires
        m.wf(),
    ensures
        spec_nexts(m, k).items == m.items,
        spec_nexts(m, k).selected == (m.selected + k) % (m.items.len() as int),
        spec_nexts(m, k).wf(),
    decreases k,
{
    let n = m.items.len() as int;
    let s = m.selected as int;
    if k == 0 {
        lemma_small_mod(m.selected as nat, m.items.len() as nat);
    } else {
        lemma_spec_nexts_selected(m, (k - 1) as nat);
        let r = (s + k - 1) % n;
        lemma_mod_bound(s + k - 1, n);
        lemma_fundamental_div_mod(s + k - 1, n);
        let q = (s + k - 1) / n;
        lemma_mod_multiples_vanish(q, r + 1, n);
        lemma_mod_bound(r + 1, n);
    }
}

/// Law: calling `next` exactly as many times as the menu has items
/// returns the selection to its original position, and however many times
/// it is called, the selection stays a valid index.
pub proof fn lemma_next_full_cycle<'a, A>(m: Menu<'a, A>)
    requires
        m.wf(),
    ensures
        spec_nexts(m, m.items.len() as nat) == m,
        forall|k: nat| (#[trigger] spec_nexts(m, k)).wf(),
{
    let n = m.items.len() as int;
    let s = m.selected as int;
    lemma_spec_nexts_selected(m, m.items.len() as nat);
    lemma_mod_add_multiples_vanish(s, n);
    lemma_small_mod(m.selected as nat, m.items.len() as nat);
    assert forall|k: nat| (#[trigger] spec_nexts(m, k)).wf() by {
        lemma_spec_nexts_selected(m, k);
    }
}

} // verus!
