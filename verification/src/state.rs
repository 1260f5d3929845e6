//! Generic selectable list: an ordered container with an optional selected
//! index and step-wise cyclic navigation.
//!
//! Wrap-around targets that would fall below zero are clamped to the first
//! item rather than left to wrap through an underflow.

use vstd::prelude::*;

verus! {

/// Cursor of a `StatefulList`: which item is selected, if any.
#[derive(Clone, Copy, Debug)]
pub struct ListState {
    pub selected: Option<usize>,
}

impl Default for ListState {
    /// A cursor with nothing selected.
    fn default() -> (r: Self)
        ensures
            r.selected is None,
    {
        ListState { selected: None }
    }
}

impl ListState {
    pub fn selected(&self) -> (r: Option<usize>)
        ensures
            r == self.selected,
    {
        self.selected
    }

    pub fn select(&mut self, index: Option<usize>)
        ensures
            final(self).selected == index,
    {
        self.selected = index;
    }
}

/// Where `next` lands: select the first item when nothing is selected; wrap
/// to the first item when the step would reach or pass the end.
pub open spec fn advance_index(sel: Option<usize>, len: int, step: int) -> int {
    match sel {
        None => 0,
        Some(i) => if i + step >= len {
            0
        } else {
            i + step
        },
    }
}

/// Where `previous` lands: select the first item when nothing is selected;
/// from the first item wrap to `len - step`, clamped to the first item when
/// the step is larger than the list; otherwise step back, clamped likewise.
pub open spec fn retreat_index(sel: Option<usize>, len: int, step: int) -> int {
    match sel {
        None => 0,
        Some(i) => if i == 0 {
            if step <= len {
                len - step
            } else {
                0
            }
        } else {
            if step <= i {
                i - step
            } else {
                0
            }
        },
    }
}

/// Ordered items with an optional selected index.
pub struct StatefulList<T> {
    pub state: ListState,
    pub items: Vec<T>,
}

impl<T> Default for StatefulList<T> {
    /// An empty list with nothing selected.
    fn default() -> (r: Self)
        ensures
            r.state.selected is None,
            r.items@ == Seq::<T>::empty(),
    {
        StatefulList { state: ListState { selected: None }, items: Vec::new() }
    }
}

impl<T> StatefulList<T> {
    /// Wraps the given items, with nothing selected yet.
    pub fn with_items(items: Vec<T>) -> (r: StatefulList<T>)
        ensures
            r.state.selected is None,
            r.items == items,
    {
        StatefulList { state: ListState { selected: None }, items }
    }

    /// Moves the selection `increment` steps forward, as `advance_index`
    /// says; the items stay as they were.
    pub fn next(&mut self, increment: usize)
        ensures
            final(self).items == old(self).items,
            final(self).state.selected == Some(
                advance_index(
                    old(self).state.selected,
                    old(self).items@.len() as int,
                    increment as int,
                ) as usize,
            ),
    {
        let len = self.items.len();
        let i: usize = match self.state.selected() {
            Some(i) => {
                if len == 0 || increment >= len || i >= len - increment {
                    0
                } else {
                    i + increment
                }
            },
            None => 0,
        };
        self.state.select(Some(i));
    }

    /// Moves the selection `increment` steps backward, as `retreat_index`
    /// says; the items stay as they were.
    pub fn previous(&mut self, increment: usize)
        ensures
            final(self).items == old(self).items,
            final(self).state.selected == Some(
                retreat_index(
                    old(self).state.selected,
                    old(self).items@.len() as int,
                    increment as int,
                ) as usize,
            ),
    {
        let len = self.items.len();
        let i: usize = match self.state.selected() {
            Some(i) => {
                if i == 0 {
                    if increment <= len {
                        len - increment
                    } else {
                        0
                    }
                } else {
                    if increment <= i {
                        i - increment
                    } else {
                        0
                    }
                }
            },
            None => 0,
        };
        self.state.select(Some(i));
    }
}

/// Cyclic navigation never leaves a non-empty list: starting anywhere, an
/// advance by a positive step lands on a valid index, and so does a retreat
/// by a step no larger than the item count.
pub proof fn lemma_navigation_stays_in_bounds(sel: Option<usize>, len: int, step: int)
    requires
        0 < len,
        0 < step,
        sel matches Some(i) ==> i < len,
    ensures
        0 <= advance_index(sel, len, step) < len,
        step <= len ==> 0 <= retreat_index(sel, len, step) < len,
{
}

} // verus!
