//! The grid widget: where each cell of the board goes inside an area of the
//! terminal, and what is painted there.
//!
//! Every cell gets a box of the same size: its content, `cell_size` columns
//! by `cell_size` rows, inside a border. Boxes of one row are a column apart;
//! rows follow one another directly. The boxes start at the top left corner
//! of the area. An area too small for all thirty boxes gets none.

use vstd::prelude::*;
use crate::board::{Board, Cell, in_range, COLS, ROWS};
use crate::geometry::Rect;
use crate::glyph::{
    center_glyph, centered_glyph, display_columns, lemma_glyph_centered, measure,
};
use crate::palette::{display_color, display_color_of, Rgb};

verus! {

/// Columns a box takes beyond its content: the border and one column of
/// padding on each side.
pub const BORDER_COLS: u16 = 4;

/// Rows a box takes beyond its content: the border above and below.
pub const BORDER_ROWS: u16 = 2;

/// Free columns between two boxes of a row.
pub const COLUMN_GAP: u16 = 1;

/// Number of cells on the board.
pub const CELLS: usize = ROWS * COLS;

/// Width of a box.
pub open spec fn slot_width(cell_size: u16) -> int {
    cell_size + BORDER_COLS
}

/// Height of a box.
pub open spec fn slot_height(cell_size: u16) -> int {
    cell_size + BORDER_ROWS
}

/// The least width of an area that holds a row of boxes.
pub open spec fn min_width(cell_size: u16) -> int {
    COLS * slot_width(cell_size) + (COLS - 1) * COLUMN_GAP
}

/// The least height of an area that holds all rows.
pub open spec fn min_height(cell_size: u16) -> int {
    ROWS * slot_height(cell_size)
}

/// Whether the grid is drawn in `area`: the area is a valid rectangle, at
/// least `min_width` wide and `min_height` high.
pub open spec fn fits(cell_size: u16, area: Rect) -> bool {
    &&& area.is_valid()
    &&& area.width >= min_width(cell_size)
    &&& area.height >= min_height(cell_size)
}

/// The first column of the boxes in column `col` of the board.
pub open spec fn cell_left(cell_size: u16, area: Rect, col: int) -> int {
    area.x + col * (slot_width(cell_size) + COLUMN_GAP)
}

/// The first row of the boxes in row `row` of the board.
pub open spec fn cell_top(cell_size: u16, area: Rect, row: int) -> int {
    area.y + row * slot_height(cell_size)
}

/// The box of the cell at `(row, col)`.
pub open spec fn cell_rect(cell_size: u16, area: Rect, row: int, col: int) -> Rect {
    Rect {
        x: cell_left(cell_size, area, col) as u16,
        y: cell_top(cell_size, area, row) as u16,
        width: slot_width(cell_size) as u16,
        height: slot_height(cell_size) as u16,
    }
}

/// The content area of a box: what the border and the padding leave.
pub open spec fn content_rect(cell_size: u16, outer: Rect) -> Rect {
    Rect {
        x: (outer.x + BORDER_COLS / 2) as u16,
        y: (outer.y + BORDER_ROWS / 2) as u16,
        width: cell_size,
        height: cell_size,
    }
}

/// What is painted for one cell of the board.
#[derive(Clone, Copy, Debug, PartialEq, Eq, Structural)]
pub struct Placement {
    /// Row of the cell on the board.
    pub row: usize,
    /// Column of the cell on the board.
    pub col: usize,
    /// The bordered box.
    pub rect: Rect,
    /// The cells the letter is written in, centred in the box's content.
    pub glyph: Rect,
    /// The cell as the board holds it.
    pub cell: Cell,
    /// The colour of border and letter.
    pub paint: Rgb,
}

/// The placement of the cell at `(row, col)` of `board`.
pub open spec fn placement(
    cell_size: u16,
    area: Rect,
    board: Seq<Seq<Cell>>,
    row: int,
    col: int,
) -> Placement {
    let rect = cell_rect(cell_size, area, row, col);
    let cell = board[row][col];
    Placement {
        row: row as usize,
        col: col as usize,
        rect,
        glyph: centered_glyph(content_rect(cell_size, rect), display_columns(cell.letter)),
        cell,
        paint: display_color_of(cell.color),
    }
}

/// The boxes of all cells, row by row, each row left to right.
pub open spec fn cell_rects(cell_size: u16, area: Rect) -> Seq<Rect> {
    Seq::new(CELLS as nat, |i: int| cell_rect(cell_size, area, i / COLS as int, i % COLS as int))
}

/// The placements of all cells, row by row, each row left to right.
pub open spec fn placements(cell_size: u16, area: Rect, board: Seq<Seq<Cell>>) -> Seq<Placement> {
    Seq::new(
        CELLS as nat,
        |i: int| placement(cell_size, area, board, i / COLS as int, i % COLS as int),
    )
}

/// Where the box of the cell at `(row, col)` stands among all boxes.
pub open spec fn cell_index(row: int, col: int) -> int {
    row * COLS + col
}

/// What the widget lays out in `area`: all boxes, or nothing where the area
/// is too small.
pub open spec fn arrangement(cell_size: u16, area: Rect) -> Option<Seq<Rect>> {
    if fits(cell_size, area) {
        Some(cell_rects(cell_size, area))
    } else {
        None
    }
}

/// What the widget paints for `board` in `area`: all placements, or
/// nothing where the area is too small.
pub open spec fn rendering(cell_size: u16, area: Rect, board: Seq<Seq<Cell>>) -> Option<
    Seq<Placement>,
> {
    if fits(cell_size, area) {
        Some(placements(cell_size, area, board))
    } else {
        None
    }
}

/// The widget that lays the board out: it holds the size of a box's
/// content and nothing else, so drawing twice draws the same.
#[derive(Clone, Copy, Debug, PartialEq, Eq, Structural)]
pub struct GridWidget {
    /// Columns and rows of the content of a box.
    pub cell_size: u16,
}

impl GridWidget {
    /// The widget that draws boxes with a content of `cell_size` columns by
    /// `cell_size` rows.
    pub fn new(cell_size: u16) -> (widget: GridWidget)
        ensures
            widget.cell_size == cell_size,
    {
        GridWidget { cell_size }
    }

    /// The least width and height of an area the grid is drawn in.
    pub fn min_size(&self) -> (size: (u32, u32))
        ensures
            size.0 == min_width(self.cell_size),
            size.1 == min_height(self.cell_size),
    {
        let slot_w: u32 = self.cell_size as u32 + BORDER_COLS as u32;
        let slot_h: u32 = self.cell_size as u32 + BORDER_ROWS as u32;
        let cols: u32 = COLS as u32;
        let rows: u32 = ROWS as u32;
        assert(cols == 5 && rows == 6);
        (cols * slot_w + (cols - 1) * COLUMN_GAP as u32, rows * slot_h)
    }

    /// Whether the grid is drawn in `area`.
    pub fn fits(&self, area: Rect) -> (yes: bool)
        ensures
            yes == fits(self.cell_size, area),
    {
        let size: (u32, u32) = self.min_size();
        area.valid() && area.width as u32 >= size.0 && area.height as u32 >= size.1
    }

    /// The box of the cell at `(row, col)`; none where the grid is not
    /// drawn in `area` or the board has no such cell.
    pub fn cell_rect(&self, area: Rect, row: usize, col: usize) -> (rect: Option<Rect>)
        ensures
            fits(self.cell_size, area) && in_range(row as int, col as int) ==> rect == Some(
                cell_rect(self.cell_size, area, row as int, col as int),
            ),
            !(fits(self.cell_size, area) && in_range(row as int, col as int)) ==> rect.is_none(),
    {
        if !(self.fits(area) && row < ROWS && col < COLS) {
            return None;
        }
        proof {
            lemma_cell_edges(self.cell_size, area, row as int, col as int);
        }
        let slot_w: u16 = self.cell_size + BORDER_COLS;
        let slot_h: u16 = self.cell_size + BORDER_ROWS;
        Some(
            Rect {
                x: area.x + col as u16 * (slot_w + COLUMN_GAP),
                y: area.y + row as u16 * slot_h,
                width: slot_w,
                height: slot_h,
            },
        )
    }

    /// The placement of `cell` at `(row, col)`, for a letter that takes
    /// `columns` columns on the terminal; none where the grid is not drawn
    /// in `area` or the board has no such cell.
    pub fn place(
        &self,
        area: Rect,
        row: usize,
        col: usize,
        cell: Cell,
        columns: Option<usize>,
    ) -> (placed: Option<Placement>)
        ensures
            fits(self.cell_size, area) && in_range(row as int, col as int) ==> placed == Some(
                Placement {
                    row,
                    col,
                    rect: cell_rect(self.cell_size, area, row as int, col as int),
                    glyph: centered_glyph(
                        content_rect(
                            self.cell_size,
                            cell_rect(self.cell_size, area, row as int, col as int),
                        ),
                        columns,
                    ),
                    cell,
                    paint: display_color_of(cell.color),
                },
            ),
            !(fits(self.cell_size, area) && in_range(row as int, col as int)) ==> placed.is_none(),
    {
        match self.cell_rect(area, row, col) {
            None => None,
            Some(rect) => {
                proof {
                    lemma_cell_edges(self.cell_size, area, row as int, col as int);
                }
                let content = Rect {
                    x: rect.x + BORDER_COLS / 2,
                    y: rect.y + BORDER_ROWS / 2,
                    width: self.cell_size,
                    height: self.cell_size,
                };
                Some(
                    Placement {
                        row,
                        col,
                        rect,
                        glyph: center_glyph(content, columns),
                        cell,
                        paint: display_color(cell.color),
                    },
                )
            },
        }
    }

    /// The boxes of all thirty cells in `area`, row by row; none where the
    /// area is too small for them.
    pub fn layout(&self, area: Rect) -> (rects: Option<Vec<Rect>>)
        ensures
            match rects {
                Some(all) => arrangement(self.cell_size, area) == Some(all@),
                None => arrangement(self.cell_size, area).is_none(),
            },
    {
        if !self.fits(area) {
            return None;
        }
        let mut rects: Vec<Rect> = Vec::new();
        let mut index: usize = 0;
        while index < CELLS
            invariant
                fits(self.cell_size, area),
                index <= CELLS,
                rects@.len() == index,
                forall|i: int|
                    0 <= i < index ==> rects@[i] == cell_rect(
                        self.cell_size,
                        area,
                        i / COLS as int,
                        i % COLS as int,
                    ),
            decreases CELLS - index,
        {
            let rect: Option<Rect> = self.cell_rect(area, index / COLS, index % COLS);
            rects.push(rect.unwrap());
            index += 1;
        }
        assert(rects@ =~= cell_rects(self.cell_size, area));
        Some(rects)
    }

    /// What is painted for `board` in `area`: the placements of all thirty
    /// cells, row by row; none where the area is too small for them. The
    /// board is read and never changed.
    pub fn render(&self, area: Rect, board: &Board) -> (painted: Option<Vec<Placement>>)
        ensures
            match painted {
                Some(all) => rendering(self.cell_size, area, board@) == Some(all@),
                None => rendering(self.cell_size, area, board@).is_none(),
            },
    {
        if !self.fits(area) {
            return None;
        }
        let mut painted: Vec<Placement> = Vec::new();
        let mut index: usize = 0;
        while index < CELLS
            invariant
                fits(self.cell_size, area),
                index <= CELLS,
                painted@.len() == index,
                forall|i: int|
                    0 <= i < index ==> painted@[i] == placement(
                        self.cell_size,
                        area,
                        board@,
                        i / COLS as int,
                        i % COLS as int,
                    ),
            decreases CELLS - index,
        {
            let row: usize = index / COLS;
            let col: usize = index % COLS;
            let cell: Cell = board.get(row, col).unwrap();
            let columns: Option<usize> = measure(cell.letter);
            let placed: Option<Placement> = self.place(area, row, col, cell, columns);
            painted.push(placed.unwrap());
            index += 1;
        }
        assert(painted@ =~= placements(self.cell_size, area, board@));
        Some(painted)
    }
}

/// Inside an area that fits the grid, the edges of every box are where
/// `cell_left` and `cell_top` put them, between the edges of the area.
pub proof fn lemma_cell_edges(cell_size: u16, area: Rect, row: int, col: int)
    requires
        fits(cell_size, area),
        in_range(row, col),
    ensures
        ({
            let rect = cell_rect(cell_size, area, row, col);
            &&& rect.left() == cell_left(cell_size, area, col)
            &&& rect.top() == cell_top(cell_size, area, row)
            &&& rect.right() == cell_left(cell_size, area, col) + slot_width(cell_size)
            &&& rect.bottom() == cell_top(cell_size, area, row) + slot_height(cell_size)
            &&& area.left() <= rect.left()
            &&& rect.right() <= area.left() + min_width(cell_size)
            &&& area.top() <= rect.top()
            &&& rect.bottom() <= area.top() + min_height(cell_size)
        }),
{
    let stride = slot_width(cell_size) + COLUMN_GAP;
    let high = slot_height(cell_size);
    assert(0 <= col * stride <= 4 * stride) by (nonlinear_arith)
        requires
            0 <= col <= 4,
            stride >= 0,
    ;
    assert(0 <= row * high <= 5 * high) by (nonlinear_arith)
        requires
            0 <= row <= 5,
            high >= 0,
    ;
}

/// Every box lies inside the area the grid is drawn in.
pub proof fn lemma_cell_enclosed(cell_size: u16, area: Rect, row: int, col: int)
    requires
        fits(cell_size, area),
        in_range(row, col),
    ensures
        area.encloses(cell_rect(cell_size, area, row, col)),
        cell_rect(cell_size, area, row, col).is_valid(),
{
    lemma_cell_edges(cell_size, area, row, col);
}

/// The box of a cell ends where the box below it begins, and ends a gap
/// before the box to its right: rows lie above one another in the board's
/// order, columns side by side in the board's order.
pub proof fn lemma_cell_order(cell_size: u16, area: Rect, row: int, col: int)
    requires
        fits(cell_size, area),
        in_range(row, col),
    ensures
        in_range(row + 1, col) ==> cell_rect(cell_size, area, row, col).bottom() == cell_rect(
            cell_size,
            area,
            row + 1,
            col,
        ).top(),
        in_range(row, col + 1) ==> cell_rect(cell_size, area, row, col).right() + COLUMN_GAP
            == cell_rect(cell_size, area, row, col + 1).left(),
{
    lemma_cell_edges(cell_size, area, row, col);
    let stride = slot_width(cell_size) + COLUMN_GAP;
    let high = slot_height(cell_size);
    if in_range(row + 1, col) {
        lemma_cell_edges(cell_size, area, row + 1, col);
        assert((row + 1) * high == row * high + high) by (nonlinear_arith);
    }
    if in_range(row, col + 1) {
        lemma_cell_edges(cell_size, area, row, col + 1);
        assert((col + 1) * stride == col * stride + stride) by (nonlinear_arith);
    }
}

/// Boxes further down or further right begin after the earlier ones end:
/// a box in a lower row lies wholly below, a box in a later column wholly
/// to the right.
pub proof fn lemma_cells_apart(
    cell_size: u16,
    area: Rect,
    row: int,
    col: int,
    other_row: int,
    other_col: int,
)
    requires
        fits(cell_size, area),
        in_range(row, col),
        in_range(other_row, other_col),
    ensures
        row < other_row ==> cell_rect(cell_size, area, row, col).bottom() <= cell_rect(
            cell_size,
            area,
            other_row,
            other_col,
        ).top(),
        col < other_col ==> cell_rect(cell_size, area, row, col).right() < cell_rect(
            cell_size,
            area,
            other_row,
            other_col,
        ).left(),
{
    lemma_cell_edges(cell_size, area, row, col);
    lemma_cell_edges(cell_size, area, other_row, other_col);
    let stride = slot_width(cell_size) + COLUMN_GAP;
    let high = slot_height(cell_size);
    if row < other_row {
        assert((row + 1) * high <= other_row * high) by (nonlinear_arith)
            requires
                row + 1 <= other_row,
                high >= 0,
        ;
        assert((row + 1) * high == row * high + high) by (nonlinear_arith);
    }
    if col < other_col {
        assert((col + 1) * stride <= other_col * stride) by (nonlinear_arith)
            requires
                col + 1 <= other_col,
                stride >= 0,
        ;
        assert((col + 1) * stride == col * stride + stride) by (nonlinear_arith);
    }
}

/// The boxes of two different cells share no character cell.
pub proof fn lemma_cells_disjoint(
    cell_size: u16,
    area: Rect,
    row: int,
    col: int,
    other_row: int,
    other_col: int,
)
    requires
        fits(cell_size, area),
        in_range(row, col),
        in_range(other_row, other_col),
        row != other_row || col != other_col,
    ensures
        !cell_rect(cell_size, area, row, col).overlaps(
            cell_rect(cell_size, area, other_row, other_col),
        ),
{
    lemma_cells_apart(cell_size, area, row, col, other_row, other_col);
    lemma_cells_apart(cell_size, area, other_row, other_col, row, col);
}

/// In an area that fits the grid there are exactly thirty boxes, one for
/// each cell of the board and in the board's order; each lies inside the
/// area, and no two share a character cell.
pub proof fn lemma_grid_partition(cell_size: u16, area: Rect)
    requires
        fits(cell_size, area),
    ensures
        ({
            let all = cell_rects(cell_size, area);
            &&& all.len() == ROWS * COLS
            &&& forall|row: int, col: int|
                in_range(row, col) ==> 0 <= #[trigger] cell_index(row, col) < all.len()
                    && all[cell_index(row, col)] == cell_rect(cell_size, area, row, col)
            &&& forall|i: int| 0 <= i < all.len() ==> area.encloses(#[trigger] all[i])
            &&& forall|i: int, j: int|
                0 <= i < all.len() && 0 <= j < all.len() && i != j ==> !(
                #[trigger] all[i]).overlaps(#[trigger] all[j])
        }),
{
    let all = cell_rects(cell_size, area);
    assert forall|i: int| 0 <= i < all.len() implies area.encloses(#[trigger] all[i]) by {
        lemma_cell_enclosed(cell_size, area, i / COLS as int, i % COLS as int);
    }
    assert forall|i: int, j: int| 0 <= i < all.len() && 0 <= j < all.len() && i != j implies !(
    #[trigger] all[i]).overlaps(#[trigger] all[j]) by {
        lemma_cells_disjoint(
            cell_size,
            area,
            i / COLS as int,
            i % COLS as int,
            j / COLS as int,
            j % COLS as int,
        );
    }
}

/// The boxes follow the board. The box of `(row, col)` lies strictly above
/// the box of `(row + 1, col)`: it begins above it and ends no lower than
/// the other begins. It lies strictly left of the box of `(row, col + 1)`:
/// it begins left of it and ends before the other begins.
pub proof fn lemma_grid_order(cell_size: u16, area: Rect, row: int, col: int)
    requires
        fits(cell_size, area),
        in_range(row, col),
    ensures
        in_range(row + 1, col) ==> ({
            let upper = cell_rects(cell_size, area)[cell_index(row, col)];
            let lower = cell_rects(cell_size, area)[cell_index(row + 1, col)];
            upper.top() < lower.top() && upper.bottom() <= lower.top()
        }),
        in_range(row, col + 1) ==> ({
            let first = cell_rects(cell_size, area)[cell_index(row, col)];
            let second = cell_rects(cell_size, area)[cell_index(row, col + 1)];
            first.left() < second.left() && first.right() < second.left()
        }),
{
    lemma_grid_partition(cell_size, area);
    lemma_cell_order(cell_size, area, row, col);
    lemma_cell_edges(cell_size, area, row, col);
}

/// Rendering keeps no state: the widget, the area and the board determine
/// what is painted, so rendering the same board into the same area twice
/// paints the same twice.
pub proof fn lemma_render_repeatable(
    cell_size: u16,
    area: Rect,
    board: Seq<Seq<Cell>>,
    first: Option<Seq<Placement>>,
    second: Option<Seq<Placement>>,
)
    requires
        first == rendering(cell_size, area, board),
        second == rendering(cell_size, area, board),
    ensures
        first == second,
{
}

/// Each placement shows the cell that the board holds at its position, in
/// that cell's colour, with the letter inside the box.
pub proof fn lemma_placement_shows_cell(
    cell_size: u16,
    area: Rect,
    board: Seq<Seq<Cell>>,
    row: int,
    col: int,
)
    requires
        fits(cell_size, area),
        in_range(row, col),
    ensures
        ({
            let shown = placements(cell_size, area, board)[cell_index(row, col)];
            &&& shown == placement(cell_size, area, board, row, col)
            &&& shown.row == row && shown.col == col
            &&& shown.cell == board[row][col]
            &&& shown.paint == display_color_of(board[row][col].color)
            &&& shown.rect == cell_rect(cell_size, area, row, col)
            &&& shown.rect.encloses(content_rect(cell_size, shown.rect))
            &&& content_rect(cell_size, shown.rect).encloses(shown.glyph)
        }),
{
    lemma_cell_edges(cell_size, area, row, col);
    let rect = cell_rect(cell_size, area, row, col);
    lemma_glyph_centered(content_rect(cell_size, rect), display_columns(board[row][col].letter));
}

} // verus!
