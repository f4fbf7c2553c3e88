//! Cursor arithmetic for the two lists of the client: moving by a line, a
//! page, half a page or to an edge, always clamped to the list.

use vstd::prelude::*;

verus! {

/// The last valid index of a list of `len` items, or 0 for an empty list.
pub open spec fn last_index(len: nat) -> nat {
    if len == 0 {
        0
    } else {
        (len - 1) as nat
    }
}

/// `a - b`, or 0 when `b` is larger.
pub open spec fn sat_sub(a: int, b: int) -> nat {
    if a >= b {
        (a - b) as nat
    } else {
        0
    }
}

pub open spec fn min_nat(a: nat, b: nat) -> nat {
    if a <= b {
        a
    } else {
        b
    }
}

/// Where a cursor at `index` lands after moving down `n` rows in a list of `len` items.
pub open spec fn down_by(index: nat, n: nat, len: nat) -> nat {
    min_nat(index + n, last_index(len))
}

/// Where a cursor at `index` lands after moving up `n` rows.
pub open spec fn up_by(index: nat, n: nat) -> nat {
    sat_sub(index as int, n as int)
}

/// Rows of a page in a bordered pane of `height` rows.
pub open spec fn page_rows(height: nat, border: nat) -> nat {
    sat_sub(height as int, border as int)
}

/// Half a page, but at least one row.
pub open spec fn half_rows(height: nat, border: nat) -> nat {
    let h = page_rows(height, border) / 2;
    if h == 0 {
        1
    } else {
        h
    }
}

/// The index kept when a list is replaced by one of `len` items: the old
/// index clamped to the new list, or 0 when it is empty.
pub open spec fn clamp_index(index: nat, len: nat) -> nat {
    min_nat(index, last_index(len))
}

/// Number of rows a page covers in a pane of `height` rows with `border` rows of frame.
pub fn page_size(height: u16, border: u16) -> (r: usize)
    ensures
        r == page_rows(height as nat, border as nat),
{
    if height >= border {
        (height - border) as usize
    } else {
        0
    }
}

/// Half of `page_size`, at least 1.
pub fn half_page_size(height: u16, border: u16) -> (r: usize)
    ensures
        r == half_rows(height as nat, border as nat),
        r >= 1,
{
    let h = page_size(height, border) / 2;
    if h == 0 {
        1
    } else {
        h
    }
}

/// The last index of a list of `len` items (0 when empty).
pub fn last_of(len: usize) -> (r: usize)
    ensures
        r == last_index(len as nat),
{
    if len == 0 {
        0
    } else {
        len - 1
    }
}

/// Moves a cursor down by `n`, stopping at the last item.
pub fn move_down_by(index: usize, n: usize, len: usize) -> (r: usize)
    ensures
        r == down_by(index as nat, n as nat, len as nat),
{
    let last = last_of(len);
    if index >= last || n >= last - index {
        last
    } else {
        index + n
    }
}

/// Moves a cursor up by `n`, stopping at the first item.
pub fn move_up_by(index: usize, n: usize) -> (r: usize)
    ensures
        r == up_by(index as nat, n as nat),
{
    if index >= n {
        index - n
    } else {
        0
    }
}

/// Keeps `index` inside a list of `len` items.
pub fn clamp_to(index: usize, len: usize) -> (r: usize)
    ensures
        r == clamp_index(index as nat, len as nat),
        len > 0 ==> r < len,
        len == 0 ==> r == 0,
{
    let last = last_of(len);
    if index <= last {
        index
    } else {
        last
    }
}

/// Moving down by a page from a valid index lands on the smaller of
/// `i + p` and the last index, and moving up lands on the larger of
/// `i - p` and 0; both stay inside the list.
pub proof fn lemma_page_moves(i: nat, p: nat, len: nat)
    requires
        i < len,
    ensures
        down_by(i, p, len) == (if i + p <= len - 1 { i + p } else { (len - 1) as nat }),
        up_by(i, p) == (if i >= p { (i - p) as nat } else { 0 }),
        down_by(i, p, len) < len,
        up_by(i, p) < len,
{
}

} // verus!
