//! The column cursor: one of the five columns of the board is selected,
//! and the selection moves a column at a time, stopping at the edges.

use vstd::math::{max, min};
use vstd::prelude::*;
use crate::board::COLS;

verus! {

/// The column right of `column`, but never past the last column.
pub open spec fn next_column_of(column: int) -> int {
    min(column + 1, COLS - 1)
}

/// The column left of `column`, but never before the first column.
pub open spec fn previous_column_of(column: int) -> int {
    max(column - 1, 0)
}

/// The cursor does not leave the board: from a column of the board both
/// moves lead to a column of the board.
pub proof fn lemma_cursor_stays_on_board(column: int)
    requires
        0 <= column < COLS,
    ensures
        0 <= next_column_of(column) < COLS,
        0 <= previous_column_of(column) < COLS,
{
}

/// The cursor stops at the edges: moving left from the first column and
/// moving right from the last change nothing, and nowhere else does a move
/// change nothing.
pub proof fn lemma_cursor_clamps(column: int)
    requires
        0 <= column < COLS,
    ensures
        previous_column_of(0) == 0,
        next_column_of(COLS - 1) == COLS - 1,
        previous_column_of(column) == column <==> column == 0,
        next_column_of(column) == column <==> column == COLS - 1,
{
}

/// The selected column. Its view is the column's number, which is always
/// one of the board's.
#[derive(Clone, Copy, Debug, PartialEq, Eq)]
pub struct Cursor {
    column: usize,
}

impl View for Cursor {
    type V = int;

    closed spec fn view(&self) -> int {
        self.column as int
    }
}

impl Cursor {
    #[verifier::type_invariant]
    spec fn on_board(self) -> bool {
        self.column < COLS
    }

    /// The cursor on the first column.
    pub fn new() -> (cursor: Cursor)
        ensures
            cursor@ == 0,
    {
        Cursor { column: 0 }
    }

    /// The selected column, always a column of the board.
    pub fn column(&self) -> (column: usize)
        ensures
            column == self@,
            column < COLS,
    {
        proof {
            use_type_invariant(self);
        }
        self.column
    }

    /// Moves one column right, unless the cursor is on the last column.
    pub fn next_column(&mut self)
        ensures
            final(self)@ == next_column_of(old(self)@),
    {
        proof {
            use_type_invariant(&*self);
        }
        if self.column + 1 < COLS {
            self.column = self.column + 1;
        }
    }

    /// Moves one column left, unless the cursor is on the first column.
    pub fn previous_column(&mut self)
        ensures
            final(self)@ == previous_column_of(old(self)@),
    {
        proof {
            use_type_invariant(&*self);
        }
        if self.column > 0 {
            self.column = self.column - 1;
        }
    }
}

} // verus!
