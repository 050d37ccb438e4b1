//! Which grid cells the painter marks: the cells of the selection and of
//! the search occurrences in view. A span covers its first row from its
//! start column, its last row up to its end column (both inclusive), and
//! every row in between whole; a span on one row, or a rectangular
//! selection, covers the columns between start and end on each row.
use vstd::prelude::*;

use crate::search_bar::OccurrenceSpan;

verus! {

/// The selection, in viewport rows and columns.
#[derive(Debug, Clone, Copy, PartialEq, Eq, Structural)]
pub struct SelectionSpan {
    pub start_row: usize,
    pub start_col: usize,
    pub end_row: usize,
    pub end_col: usize,
    /// Rectangular (`Alt` + drag).
    pub is_block: bool,
}

/// Whether a span from `(sr, sc)` to `(er, ec)` covers `(row, col)`.
pub open spec fn span_covers(
    sr: usize,
    sc: usize,
    er: usize,
    ec: usize,
    rectangular: bool,
    row: usize,
    col: usize,
) -> bool {
    if row < sr || row > er {
        false
    } else if rectangular || sr == er {
        sc <= col <= ec
    } else if row == sr {
        col >= sc
    } else if row == er {
        col <= ec
    } else {
        true
    }
}

/// Whether `(row, col)` is inside the selection.
pub open spec fn is_selected_spec(selection: Option<SelectionSpan>, row: usize, col: usize) -> bool {
    match selection {
        None => false,
        Some(s) => span_covers(s.start_row, s.start_col, s.end_row, s.end_col, s.is_block, row, col),
    }
}

pub fn is_selected(selection: Option<SelectionSpan>, row: usize, col: usize) -> (b: bool)
    ensures
        b == is_selected_spec(selection, row, col),
{
    let sel = match selection {
        None => {
            return false;
        },
        Some(s) => s,
    };
    if row < sel.start_row || row > sel.end_row {
        return false;
    }
    if sel.is_block || sel.start_row == sel.end_row {
        return col >= sel.start_col && col <= sel.end_col;
    }
    if row == sel.start_row {
        return col >= sel.start_col;
    }
    if row == sel.end_row {
        return col <= sel.end_col;
    }
    true
}

/// Whether occurrence `o` covers `(row, col)` (an occurrence is never
/// rectangular).
pub open spec fn occurrence_covers(o: OccurrenceSpan, row: usize, col: usize) -> bool {
    span_covers(o.start_row, o.start_col, o.end_row, o.end_col, false, row, col)
}

/// The first occurrence of `occs[i..]` that covers `(row, col)`: whether it
/// is the active one; `None` outside every occurrence.
pub open spec fn occurrence_at_from(occs: Seq<OccurrenceSpan>, i: int, row: usize, col: usize) -> Option<bool>
    decreases occs.len() - i,
{
    if i < 0 || i >= occs.len() {
        None
    } else if occurrence_covers(occs[i], row, col) {
        Some(occs[i].active)
    } else {
        occurrence_at_from(occs, i + 1, row, col)
    }
}

/// Whether `(row, col)` falls in a search occurrence, and if it is the
/// active one (see [`occurrence_at_from`]).
pub fn occurrence_at(occurrences: &[OccurrenceSpan], row: usize, col: usize) -> (r: Option<bool>)
    ensures
        r == occurrence_at_from(occurrences@, 0, row, col),
{
    let mut i: usize = 0;
    while i < occurrences.len()
        invariant
            i <= occurrences@.len(),
            occurrence_at_from(occurrences@, 0, row, col) == occurrence_at_from(
                occurrences@,
                i as int,
                row,
                col,
            ),
        decreases occurrences.len() - i,
    {
        let o = occurrences[i];
        let inside = if row < o.start_row || row > o.end_row {
            false
        } else if o.start_row == o.end_row {
            col >= o.start_col && col <= o.end_col
        } else if row == o.start_row {
            col >= o.start_col
        } else if row == o.end_row {
            col <= o.end_col
        } else {
            true
        };
        if inside {
            return Some(o.active);
        }
        i = i + 1;
    }
    None
}

/// A rectangular selection covers exactly the columns between its ends on
/// each of its rows; a linear one covers every column of its inner rows.
pub proof fn lemma_selection_shapes(s: SelectionSpan, row: usize, col: usize)
    requires
        s.start_row <= row <= s.end_row,
    ensures
        s.is_block ==> (is_selected_spec(Some(s), row, col) <==> s.start_col <= col <= s.end_col),
        (!s.is_block && s.start_row < row < s.end_row) ==> is_selected_spec(Some(s), row, col),
{
}

} // verus!
