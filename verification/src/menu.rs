//! A vertical menu of labelled entries with one selected.

use vstd::prelude::*;

use crate::viewport::{index_down, index_up, step_down, step_up};

verus! {

/// One entry of a menu: an identifier the screen acts on, the label shown and an
/// optional key hint.
#[derive(Clone, Copy, Debug, PartialEq, Eq)]
pub struct MenuItem {
    pub id: &'static str,
    pub label: &'static str,
    pub hint: Option<&'static str>,
}

impl MenuItem {
    pub fn new(id: &'static str, label: &'static str) -> (r: Self)
        ensures
            r.id == id,
            r.label == label,
            r.hint is None,
    {
        MenuItem { id, label, hint: None }
    }

    /// The same entry with a key hint.
    pub fn with_hint(self, hint: &'static str) -> (r: Self)
        ensures
            r.id == self.id,
            r.label == self.label,
            r.hint == Some(hint),
    {
        MenuItem { hint: Some(hint), ..self }
    }
}

/// The entries of a menu and the selected one.
pub struct Menu {
    items: Vec<MenuItem>,
    selected: usize,
}

impl Menu {
    pub closed spec fn item_seq(&self) -> Seq<MenuItem> {
        self.items@
    }

    pub closed spec fn selected_at(&self) -> nat {
        self.selected as nat
    }

    /// The selection is an entry, or 0 in an empty menu.
    pub open spec fn wf(&self) -> bool {
        if self.item_seq().len() == 0 {
            self.selected_at() == 0
        } else {
            self.selected_at() < self.item_seq().len()
        }
    }

    /// A menu over `items` with the first one selected.
    pub fn new(items: Vec<MenuItem>) -> (r: Self)
        ensures
            r.wf(),
            r.item_seq() == items@,
            r.selected_at() == 0,
    {
        Menu { items, selected: 0 }
    }

    pub fn items(&self) -> (r: &[MenuItem])
        ensures
            r@ == self.item_seq(),
    {
        self.items.as_slice()
    }

    pub fn selected_index(&self) -> (r: usize)
        ensures
            r == self.selected_at(),
    {
        self.selected
    }

    /// The selected entry, if any.
    pub fn selected(&self) -> (r: Option<&MenuItem>)
        ensures
            r == (if self.selected_at() < self.item_seq().len() {
                Some(&self.item_seq()[self.selected_at() as int])
            } else {
                None
            }),
    {
        if self.selected < self.items.len() {
            Some(&self.items[self.selected])
        } else {
            None
        }
    }

    /// The rows the menu takes: one per entry.
    pub fn height(&self) -> (r: u16)
        ensures
            r == if self.item_seq().len() <= u16::MAX {
                self.item_seq().len()
            } else {
                u16::MAX as nat
            },
    {
        if self.items.len() <= 65535 {
            self.items.len() as u16
        } else {
            65535
        }
    }

    /// Selects the entry `n` up (at least one), stopping at the first.
    pub fn move_up(&mut self, n: usize)
        requires
            old(self).wf(),
        ensures
            final(self).wf(),
            final(self).item_seq() == old(self).item_seq(),
            final(self).selected_at() == if old(self).item_seq().len() == 0 {
                0
            } else {
                index_up(old(self).selected_at(), n as nat)
            },
    {
        if self.items.len() > 0 {
            self.selected = step_up(self.selected, n);
        }
    }

    /// Selects the entry `n` down (at least one), stopping at the last.
    pub fn move_down(&mut self, n: usize)
        requires
            old(self).wf(),
        ensures
            final(self).wf(),
            final(self).item_seq() == old(self).item_seq(),
            final(self).selected_at() == if old(self).item_seq().len() == 0 {
                0
            } else {
                index_down(old(self).selected_at(), n as nat, old(self).item_seq().len())
            },
    {
        if self.items.len() > 0 {
            self.selected = step_down(self.selected, n, self.items.len());
        }
    }

    /// Selects the first entry.
    pub fn move_top(&mut self)
        requires
            old(self).wf(),
        ensures
            final(self).wf(),
            final(self).item_seq() == old(self).item_seq(),
            final(self).selected_at() == 0,
    {
        self.selected = 0;
    }

    /// Selects the last entry.
    pub fn move_bottom(&mut self)
        requires
            old(self).wf(),
        ensures
            final(self).wf(),
            final(self).item_seq() == old(self).item_seq(),
            final(self).selected_at() == if old(self).item_seq().len() == 0 {
                0
            } else {
                (old(self).item_seq().len() - 1) as nat
            },
    {
        if self.items.len() > 0 {
            self.selected = self.items.len() - 1;
        }
    }
}

} // verus!
