//! Rectangles of terminal character cells.

use vstd::prelude::*;

verus! {

/// A rectangle of character cells: `width` columns from column `x` on,
/// `height` rows from row `y` on.
#[derive(Clone, Copy, Debug, PartialEq, Eq, Structural)]
pub struct Rect {
    /// The first column.
    pub x: u16,
    /// The first row.
    pub y: u16,
    /// Number of columns.
    pub width: u16,
    /// Number of rows.
    pub height: u16,
}

impl Rect {
    /// The first column of the rectangle.
    pub open spec fn left(self) -> int {
        self.x as int
    }

    /// The first column to the right of the rectangle.
    pub open spec fn right(self) -> int {
        self.x + self.width
    }

    /// The first row of the rectangle.
    pub open spec fn top(self) -> int {
        self.y as int
    }

    /// The first row below the rectangle.
    pub open spec fn bottom(self) -> int {
        self.y + self.height
    }

    /// Whether every cell of the rectangle has coordinates that fit in `u16`
    /// with room for the edge after it.
    pub open spec fn is_valid(self) -> bool {
        self.right() <= u16::MAX && self.bottom() <= u16::MAX
    }

    /// Whether the character cell at column `col`, row `row` belongs to the
    /// rectangle.
    pub open spec fn covers(self, col: int, row: int) -> bool {
        self.left() <= col < self.right() && self.top() <= row < self.bottom()
    }

    /// Whether every cell of `inner` is a cell of `self`, edges included: an
    /// empty `inner` must still lie between the edges of `self`.
    pub open spec fn encloses(self, inner: Rect) -> bool {
        &&& self.left() <= inner.left()
        &&& inner.right() <= self.right()
        &&& self.top() <= inner.top()
        &&& inner.bottom() <= self.bottom()
    }

    /// Whether the two rectangles share a character cell.
    pub open spec fn overlaps(self, other: Rect) -> bool {
        exists|col: int, row: int| #[trigger] self.covers(col, row) && other.covers(col, row)
    }

    /// The rectangle at `(x, y)` with the given size, cut down where it would
    /// reach past the last coordinate.
    pub fn new(x: u16, y: u16, width: u16, height: u16) -> (rect: Rect)
        ensures
            rect.x == x,
            rect.y == y,
            rect.width == if x + width <= u16::MAX { width as int } else { u16::MAX - x },
            rect.height == if y + height <= u16::MAX { height as int } else { u16::MAX - y },
            rect.is_valid(),
    {
        let max_width: u16 = u16::MAX - x;
        let max_height: u16 = u16::MAX - y;
        Rect {
            x,
            y,
            width: if width > max_width { max_width } else { width },
            height: if height > max_height { max_height } else { height },
        }
    }

    /// Whether the rectangle ends at or before the last coordinate, in both
    /// directions.
    pub fn valid(&self) -> (ok: bool)
        ensures
            ok == self.is_valid(),
    {
        self.width <= u16::MAX - self.x && self.height <= u16::MAX - self.y
    }

    /// Whether `inner` lies between the edges of this rectangle.
    pub fn contains(&self, inner: &Rect) -> (yes: bool)
        ensures
            yes == self.encloses(*inner),
    {
        self.x <= inner.x && inner.x as u32 + inner.width as u32 <= self.x as u32
            + self.width as u32 && self.y <= inner.y && inner.y as u32 + inner.height as u32
            <= self.y as u32 + self.height as u32
    }

    /// Whether the two rectangles share a character cell.
    pub fn intersects(&self, other: &Rect) -> (yes: bool)
        ensures
            yes == self.overlaps(*other),
    {
        let left: u32 = if self.x >= other.x { self.x as u32 } else { other.x as u32 };
        let top: u32 = if self.y >= other.y { self.y as u32 } else { other.y as u32 };
        let yes = left < self.x as u32 + self.width as u32 && left < other.x as u32
            + other.width as u32 && top < self.y as u32 + self.height as u32 && top
            < other.y as u32 + other.height as u32;
        proof {
            if yes {
                assert(self.covers(left as int, top as int) && other.covers(
                    left as int,
                    top as int,
                ));
            }
        }
        yes
    }
}

} // verus!
