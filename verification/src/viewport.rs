//! Selection and scrolling arithmetic shared by the list screens: moving a
//! selection by a repeat count and keeping it inside a scrolled window.

use vstd::prelude::*;

verus! {

/// A repeat count of zero still moves one step.
pub open spec fn step_of(n: nat) -> nat {
    if n == 0 {
        1
    } else {
        n
    }
}

/// `a - b`, or zero when `b` is larger.
pub open spec fn sat_sub(a: int, b: int) -> nat {
    if a > b {
        (a - b) as nat
    } else {
        0
    }
}

/// The selection after moving up `n` steps, stopping at the first row.
pub open spec fn index_up(selected: nat, n: nat) -> nat {
    sat_sub(selected as int, step_of(n) as int)
}

/// The selection after moving down `n` steps in a list of `len` rows, stopping at the last.
pub open spec fn index_down(selected: nat, n: nat, len: nat) -> nat
    recommends
        len > 0,
{
    if selected + step_of(n) <= len - 1 {
        selected + step_of(n)
    } else {
        (len - 1) as nat
    }
}

/// The largest scroll offset that still fills a window of `rows` rows.
pub open spec fn max_scroll(len: nat, rows: nat) -> nat {
    sat_sub(len as int, rows as int)
}

/// The scroll offset that brings `selected` into a window of `rows` rows starting
/// at `scroll`, moving the window as little as possible, then clamped so that the
/// window does not run past the end of the list.
pub open spec fn scroll_for(len: nat, selected: nat, scroll: nat, rows: nat) -> nat {
    let s1 = if selected < scroll {
        selected
    } else if selected >= scroll + rows {
        (selected + 1 - rows) as nat
    } else {
        scroll
    };
    if s1 <= max_scroll(len, rows) {
        s1
    } else {
        max_scroll(len, rows)
    }
}

/// The selection is a row of the list, it lies inside the window, and the window
/// does not run past the end of the list; an empty list selects and scrolls to 0.
pub open spec fn viewport_ok(len: nat, selected: nat, scroll: nat, rows: nat) -> bool {
    &&& rows >= 1
    &&& if len == 0 {
        selected == 0 && scroll == 0
    } else {
        &&& selected < len
        &&& scroll <= selected < scroll + rows
        &&& scroll <= max_scroll(len, rows)
    }
}

/// Keeping the selection visible: for any selected row of a non-empty list and any
/// previous scroll offset, `scroll_for` yields a window that shows the selection and
/// stays within the list.
pub proof fn lemma_scroll_for_shows_selection(len: nat, selected: nat, scroll: nat, rows: nat)
    requires
        rows >= 1,
        selected < len,
    ensures
        viewport_ok(len, selected, scroll_for(len, selected, scroll, rows), rows),
{
}

/// A window that already shows the selection is left where it is.
pub proof fn lemma_scroll_for_is_stable(len: nat, selected: nat, scroll: nat, rows: nat)
    requires
        viewport_ok(len, selected, scroll, rows),
        len > 0,
    ensures
        scroll_for(len, selected, scroll, rows) == scroll,
{
}

/// Moves a selection up `n` steps.
pub fn step_up(selected: usize, n: usize) -> (r: usize)
    ensures
        r == index_up(selected as nat, n as nat),
{
    let step = if n == 0 { 1 } else { n };
    if selected > step { selected - step } else { 0 }
}

/// Moves a selection down `n` steps in a list of `len` rows.
pub fn step_down(selected: usize, n: usize, len: usize) -> (r: usize)
    requires
        len > 0,
    ensures
        r == index_down(selected as nat, n as nat, len as nat),
{
    let step = if n == 0 { 1 } else { n };
    let max_index = len - 1;
    if selected <= max_index && step <= max_index - selected {
        selected + step
    } else {
        max_index
    }
}

/// Computes `scroll_for` on machine integers.
pub fn scroll_to_show(len: usize, selected: usize, scroll: usize, rows: usize) -> (r: usize)
    requires
        rows >= 1,
    ensures
        r == scroll_for(len as nat, selected as nat, scroll as nat, rows as nat),
{
    let mut s = scroll;
    if selected < scroll {
        s = selected;
    } else if selected - scroll >= rows {
        s = selected - (rows - 1);
    }
    let max_offset = if len > rows { len - rows } else { 0 };
    if s > max_offset {
        s = max_offset;
    }
    s
}

} // verus!
