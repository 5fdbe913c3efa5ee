//! The board: six guesses of five letters, each letter with its feedback.

use vstd::prelude::*;
use crate::error::AppError;

verus! {

/// Number of guesses on the board.
pub const ROWS: usize = 6;

/// Number of letters in a guess.
pub const COLS: usize = 5;

/// The letter shown in a cell that has not been written yet.
pub const PLACEHOLDER: char = 'a';

/// How a letter of a guess compares with the hidden word.
#[derive(Clone, Copy, Debug, PartialEq, Eq, Structural)]
pub enum FeedbackColor {
    /// Not judged yet.
    Blank,
    /// The letter is not in the word.
    Gray,
    /// The letter is in the word, at another position.
    Yellow,
    /// The letter is at this position in the word.
    Green,
}

/// One slot of the board: a glyph and its feedback.
#[derive(Clone, Copy, Debug, PartialEq, Eq, Structural)]
pub struct Cell {
    /// The glyph that is shown.
    pub letter: char,
    /// The feedback the glyph is shown in.
    pub color: FeedbackColor,
}

impl Cell {
    /// The cell every board starts with: the placeholder letter, not judged.
    pub open spec fn empty() -> Cell {
        Cell { letter: PLACEHOLDER, color: FeedbackColor::Blank }
    }

    /// The cell with the given letter and feedback.
    pub fn new(letter: char, color: FeedbackColor) -> (cell: Cell)
        ensures
            cell == (Cell { letter, color }),
    {
        Cell { letter, color }
    }
}

/// Whether `(row, col)` names a cell of the board.
pub open spec fn in_range(row: int, col: int) -> bool {
    0 <= row < ROWS && 0 <= col < COLS
}

/// The fixed six-by-five arrangement of cells. Its view is the sequence of
/// its rows, top to bottom, each the sequence of its cells, left to right.
#[derive(Clone, Copy, Debug, PartialEq, Eq)]
pub struct Board {
    cells: [[Cell; COLS]; ROWS],
}

impl View for Board {
    type V = Seq<Seq<Cell>>;

    /// The rows of the board, top to bottom, each left to right.
    closed spec fn view(&self) -> Seq<Seq<Cell>> {
        Seq::new(ROWS as nat, |r: int| self.cells@[r]@)
    }
}

impl Board {
    /// The board on which every cell is `Cell::empty()`.
    pub open spec fn blank() -> Seq<Seq<Cell>> {
        Seq::new(ROWS as nat, |r: int| Seq::new(COLS as nat, |c: int| Cell::empty()))
    }

    /// Every board has six rows of five cells.
    pub proof fn lemma_shape(&self)
        ensures
            self@.len() == ROWS,
            forall|r: int| 0 <= r < ROWS ==> (#[trigger] self@[r]).len() == COLS,
    {
        broadcast use vstd::array::group_array_axioms;
    }

    /// The board at the start of a game: every cell is `Cell::empty()`.
    pub fn new() -> (board: Board)
        ensures
            board@ == Board::blank(),
    {
        broadcast use vstd::array::group_array_axioms;

        let cell = Cell { letter: PLACEHOLDER, color: FeedbackColor::Blank };
        let row: [Cell; COLS] = [cell; COLS];
        let cells: [[Cell; COLS]; ROWS] = [row; ROWS];
        proof {
            vstd::array::axiom_spec_array_fill_for_copy_type::<Cell, COLS>(cell);
            vstd::array::axiom_spec_array_fill_for_copy_type::<[Cell; COLS], ROWS>(row);
            assert(row@ =~= Seq::new(COLS as nat, |c: int| Cell::empty()));
        }
        let board = Board { cells };
        assert(board@ =~= Board::blank());
        board
    }

    /// The cell at `(row, col)`, or `OutOfRange` where the board has none.
    pub fn get(&self, row: usize, col: usize) -> (got: Result<Cell, AppError>)
        ensures
            in_range(row as int, col as int) ==> got == Ok::<Cell, AppError>(
                self@[row as int][col as int],
            ),
            !in_range(row as int, col as int) ==> got == Err::<Cell, AppError>(
                AppError::OutOfRange,
            ),
    {
        broadcast use vstd::array::group_array_axioms;

        if row < ROWS && col < COLS {
            Ok(self.cells[row][col])
        } else {
            Err(AppError::OutOfRange)
        }
    }

    /// Writes `cell` at `(row, col)` and leaves every other cell as it was;
    /// changes nothing and returns `OutOfRange` where the board has no such
    /// cell.
    pub fn set(&mut self, row: usize, col: usize, cell: Cell) -> (done: Result<(), AppError>)
        ensures
            in_range(row as int, col as int) ==> done == Ok::<(), AppError>(()) && final(self)@
                == old(self)@.update(row as int, old(self)@[row as int].update(col as int, cell)),
            !in_range(row as int, col as int) ==> done == Err::<(), AppError>(
                AppError::OutOfRange,
            ) && final(self)@ == old(self)@,
    {
        broadcast use vstd::array::group_array_axioms;

        if row < ROWS && col < COLS {
            self.cells[row][col] = cell;
            assert(self@ =~~= old(self)@.update(
                row as int,
                old(self)@[row as int].update(col as int, cell),
            ));
            Ok(())
        } else {
            Err(AppError::OutOfRange)
        }
    }
}

} // verus!
