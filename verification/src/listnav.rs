//! Moving a selection through a list and keeping it on screen.
use vstd::prelude::*;

verus! {

/// The rows the mouse wheel moves by when set to `scroll_amount`: at
/// least one.
pub open spec fn wheel_rows(scroll_amount: int) -> int {
    if scroll_amount >= 1 {
        scroll_amount
    } else {
        1
    }
}

/// `a - b`, or 0 when `b` is larger.
pub open spec fn sat_sub(a: int, b: int) -> int {
    if a >= b {
        a - b
    } else {
        0
    }
}

/// The smaller of two integers.
pub open spec fn min_int(a: int, b: int) -> int {
    if a <= b {
        a
    } else {
        b
    }
}

/// The last index of a list of `len` items, or 0 for an empty list.
pub open spec fn last_index(len: int) -> int {
    sat_sub(len, 1)
}

/// The index above `selected`, wrapping to the bottom when `wrap` holds.
pub open spec fn prev_index(selected: int, len: int, wrap: bool) -> int {
    if len == 0 {
        0
    } else if selected == 0 && wrap {
        len - 1
    } else {
        min_int(sat_sub(selected, 1), len - 1)
    }
}

/// The index below `selected`, wrapping to the top when `wrap` holds.
pub open spec fn next_index(selected: int, len: int, wrap: bool) -> int {
    if len == 0 {
        0
    } else if selected + 1 < len {
        selected + 1
    } else if wrap {
        0
    } else {
        len - 1
    }
}

/// The index above `selected` in a list of `len` items.
pub fn previous_list_index(selected: usize, len: usize, wrap: bool) -> (r: usize)
    ensures
        r == prev_index(selected as int, len as int, wrap),
{
    if len == 0 {
        0
    } else if selected == 0 && wrap {
        len - 1
    } else {
        let up = selected.saturating_sub(1);
        if up < len - 1 {
            up
        } else {
            len - 1
        }
    }
}

/// The index below `selected` in a list of `len` items.
pub fn next_list_index(selected: usize, len: usize, wrap: bool) -> (r: usize)
    ensures
        r == next_index(selected as int, len as int, wrap),
{
    if len == 0 {
        0
    } else if selected < len - 1 {
        selected + 1
    } else if wrap {
        0
    } else {
        len - 1
    }
}

/// With wrapping on, stepping down then up returns to where one started.
pub proof fn lemma_wrapped_steps_undo(selected: int, len: int)
    requires
        0 <= selected < len,
    ensures
        prev_index(next_index(selected, len, true), len, true) == selected,
        next_index(prev_index(selected, len, true), len, true) == selected,
{
}

/// Every step stays inside a non-empty list.
pub proof fn lemma_steps_stay_in_list(selected: int, len: int, wrap: bool)
    requires
        0 <= selected,
        0 < len,
    ensures
        0 <= prev_index(selected, len, wrap) < len,
        0 <= next_index(selected, len, wrap) < len,
{
}

/// One step up: to the row above, or to the last row when wrapping at
/// the top; an empty list leaves the selection as it is.
pub open spec fn step_up(selected: int, len: int, wrap: bool) -> int {
    if len == 0 {
        selected
    } else if selected > 0 {
        selected - 1
    } else if wrap {
        len - 1
    } else {
        selected
    }
}

/// One step down: to the row below, or to the first row when wrapping
/// at the bottom; an empty list leaves the selection as it is.
pub open spec fn step_down(selected: int, len: int, wrap: bool) -> int {
    if len == 0 {
        selected
    } else if selected + 1 < len {
        selected + 1
    } else if wrap {
        0
    } else {
        selected
    }
}

/// Moves a selection one row up.
pub fn select_up(selected: usize, len: usize, wrap: bool) -> (r: usize)
    ensures
        r == step_up(selected as int, len as int, wrap),
{
    if len == 0 {
        selected
    } else if selected > 0 {
        selected - 1
    } else if wrap {
        len - 1
    } else {
        selected
    }
}

/// Moves a selection one row down.
pub fn select_down(selected: usize, len: usize, wrap: bool) -> (r: usize)
    ensures
        r == step_down(selected as int, len as int, wrap),
{
    if len == 0 {
        selected
    } else if selected < len - 1 {
        selected + 1
    } else if wrap {
        0
    } else {
        selected
    }
}

/// Moves a selection `amount` rows down, stopping at the last row.
pub fn page_down(selected: usize, amount: usize, len: usize) -> (r: usize)
    ensures
        r == min_int(selected + amount, last_index(len as int)),
{
    let target = selected.saturating_add(amount);
    let last = len.saturating_sub(1);
    if target < last {
        target
    } else {
        last
    }
}

/// The first row to draw so that `selected` stays in a window of
/// `visible` rows over `total` rows, starting from `offset`.
pub open spec fn visible_offset(selected: int, visible: int, total: int, offset: int) -> int {
    if visible == 0 || total == 0 {
        0
    } else {
        let moved = if selected >= min_int(offset + visible, usize::MAX as int) {
            selected - (visible - 1)
        } else if selected < offset {
            selected
        } else {
            offset
        };
        min_int(moved, sat_sub(total, visible))
    }
}

/// Scrolls `offset` so that row `selected` is inside the window of
/// `visible` rows, never past the end of the list.
pub fn ensure_visible(selected: usize, visible: usize, total: usize, offset: &mut usize)
    ensures
        *final(offset) == visible_offset(
            selected as int,
            visible as int,
            total as int,
            *old(offset) as int,
        ),
{
    if visible == 0 || total == 0 {
        *offset = 0;
        return ;
    }
    if selected >= offset.saturating_add(visible) {
        *offset = selected - (visible - 1);
    } else if selected < *offset {
        *offset = selected;
    }
    let limit = total.saturating_sub(visible);
    if limit < *offset {
        *offset = limit;
    }
}

/// After scrolling, a selected row of the list lies in the window.
pub proof fn lemma_selection_visible(selected: int, visible: int, total: int, offset: int)
    requires
        0 <= selected < total,
        0 < visible,
        0 <= offset,
        total <= usize::MAX,
        visible <= usize::MAX,
    ensures
        visible_offset(selected, visible, total, offset) <= selected,
        selected < visible_offset(selected, visible, total, offset) + visible,
        visible_offset(selected, visible, total, offset) + visible <= total || visible_offset(
            selected,
            visible,
            total,
            offset,
        ) == 0,
{
}

} // verus!
