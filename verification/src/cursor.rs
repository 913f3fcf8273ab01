//! List cursors: a step that never leaves the list, and the clamp that brings a
//! stale cursor back into it.

use vstd::prelude::*;

verus! {

/// `cur` moved by `delta` and held inside `0 .. len`.
pub open spec fn stepped(cur: int, delta: int, len: int) -> int {
    if cur + delta < 0 {
        0
    } else if cur + delta > len - 1 {
        len - 1
    } else {
        cur + delta
    }
}

/// The cursor after a step of `delta` over `len` rows.
pub fn step(cur: usize, delta: i32, len: usize) -> (res: usize)
    requires
        len > 0,
    ensures
        res == stepped(cur as int, delta as int, len as int),
        res < len,
{
    let target: i128 = cur as i128 + delta as i128;
    if target < 0 {
        0
    } else if target > len as i128 - 1 {
        len - 1
    } else {
        target as usize
    }
}

/// A selection moved over `len` rows; no selection counts as the first row, and
/// an empty list keeps what it had.
pub open spec fn select_stepped(sel: Option<usize>, delta: int, len: int) -> Option<usize> {
    if len == 0 {
        sel
    } else {
        Some(
            stepped(
                if sel is Some {
                    sel->0 as int
                } else {
                    0
                },
                delta,
                len,
            ) as usize,
        )
    }
}

/// A selection moved over `len` rows.
pub fn select_step(sel: Option<usize>, delta: i32, len: usize) -> (res: Option<usize>)
    ensures
        res == select_stepped(sel, delta as int, len as int),
{
    if len == 0 {
        return sel;
    }
    let cur: usize = match sel {
        Some(i) => i,
        None => 0,
    };
    Some(step(cur, delta, len))
}

/// A selection brought back into a list of `len` rows: past the end it lands on
/// the last row, absent it lands on the first.
pub open spec fn select_clamped(sel: Option<usize>, len: int) -> Option<usize> {
    match sel {
        Some(i) => if i >= len {
            if len == 0 {
                None
            } else {
                Some((len - 1) as usize)
            }
        } else {
            sel
        },
        None => if len > 0 {
            Some(0usize)
        } else {
            None
        },
    }
}

/// A selection brought back into a list of `len` rows.
pub fn select_clamp(sel: Option<usize>, len: usize) -> (res: Option<usize>)
    ensures
        res == select_clamped(sel, len as int),
{
    match sel {
        Some(i) => if i >= len {
            if len == 0 {
                None
            } else {
                Some(len - 1)
            }
        } else {
            sel
        },
        None => if len > 0 {
            Some(0)
        } else {
            None
        },
    }
}

/// A row number brought back into a list of `len` rows; zero where it is empty.
pub open spec fn clamped(cur: int, len: int) -> int {
    if len == 0 {
        0
    } else if cur >= len {
        len - 1
    } else {
        cur
    }
}

/// A row number brought back into a list of `len` rows.
pub fn clamp(cur: usize, len: usize) -> (res: usize)
    ensures
        res == clamped(cur as int, len as int),
{
    if len == 0 {
        0
    } else if cur >= len {
        len - 1
    } else {
        cur
    }
}

/// Whether a selection names a row of a list of `len` rows, or nothing.
pub open spec fn in_list(sel: Option<usize>, len: int) -> bool {
    sel matches Some(i) ==> i < len
}

/// A step never leaves the list, wherever it started.
pub proof fn a_step_stays_inside(sel: Option<usize>, delta: int, len: int)
    requires
        0 < len <= usize::MAX,
    ensures
        select_stepped(sel, delta, len) is Some,
        in_list(select_stepped(sel, delta, len), len),
{
}

/// After a clamp the selection is inside the list, and there is one exactly
/// where the list has a row.
pub proof fn a_clamp_lands_inside(sel: Option<usize>, len: int)
    requires
        0 <= len <= usize::MAX,
    ensures
        in_list(select_clamped(sel, len), len),
        select_clamped(sel, len) is Some <==> len > 0,
        select_clamped(select_clamped(sel, len), len) == select_clamped(sel, len),
{
}

/// Stepping there and back comes home where neither end of the list was met.
pub proof fn a_step_undoes_itself(cur: int, delta: int, len: int)
    requires
        0 <= cur < len,
        0 <= cur + delta < len,
    ensures
        stepped(stepped(cur, delta, len), -delta, len) == cur,
{
}

/// A row number that is inside the list stays; one past its end lands on the last row.
pub proof fn a_clamp_moves_strays_alone(cur: int, len: int)
    requires
        0 <= cur,
        0 < len,
    ensures
        cur < len ==> clamped(cur, len) == cur,
        cur >= len ==> clamped(cur, len) == len - 1,
        cur < len <= usize::MAX ==> select_clamped(Some(cur as usize), len) == Some(cur as usize),
        len <= cur <= usize::MAX ==> select_clamped(Some(cur as usize), len) == Some(
            (len - 1) as usize,
        ),
        select_clamped(None, len) == Some(0usize),
{
}

/// A step goes as far as it says, and no further than the ends.
pub proof fn a_step_goes_as_far_as_it_says(cur: int, delta: int, len: int)
    requires
        0 <= cur < len,
    ensures
        0 <= cur + delta < len ==> stepped(cur, delta, len) == cur + delta,
        cur + delta < 0 ==> stepped(cur, delta, len) == 0,
        cur + delta >= len ==> stepped(cur, delta, len) == len - 1,
        0 <= stepped(cur, delta, len) < len,
{
}

} // verus!
