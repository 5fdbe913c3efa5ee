//! Where a letter sits inside its box.

use vstd::prelude::*;
use unicode_width::UnicodeWidthChar;
use crate::geometry::Rect;

verus! {

/// The number of terminal columns a character takes when displayed, as
/// `unicode_width` tabulates it; `None` for a control character.
pub uninterp spec fn display_columns(c: char) -> Option<usize>;

/// `unicode_width::UnicodeWidthChar::width` on `c`: a table lookup on the
/// character alone. Trusted: the result is what `display_columns` names;
/// nothing is claimed about its size.
#[verifier::external_body]
pub(crate) fn measure(c: char) -> (columns: Option<usize>)
    ensures
        columns == display_columns(c),
{
    UnicodeWidthChar::width(c)
}

/// The columns a glyph is given inside a content area `room` columns wide:
/// its display width, cut down to the room there is; none for a character
/// without a width.
pub open spec fn glyph_columns(columns: Option<usize>, room: u16) -> int {
    match columns {
        None => 0,
        Some(w) => if w <= room { w as int } else { room as int },
    }
}

/// The rows a glyph is given inside a content area `room` rows high: one,
/// unless there is none.
pub open spec fn glyph_rows(room: u16) -> int {
    if room >= 1 { 1 } else { 0 }
}

/// The cells of a glyph that is `columns` wide, centred in `content`. Where
/// the free space is odd, the extra cell is to the right and below.
pub open spec fn centered_glyph(content: Rect, columns: Option<usize>) -> Rect {
    let wide = glyph_columns(columns, content.width);
    let high = glyph_rows(content.height);
    Rect {
        x: (content.x + (content.width - wide) / 2) as u16,
        y: (content.y + (content.height - high) / 2) as u16,
        width: wide as u16,
        height: high as u16,
    }
}

/// Centres a glyph of the given display width in `content`, which must end
/// at or before the last coordinate.
pub fn center_glyph(content: Rect, columns: Option<usize>) -> (glyph: Rect)
    requires
        content.is_valid(),
    ensures
        glyph == centered_glyph(content, columns),
{
    let wide: u16 = match columns {
        None => 0,
        Some(w) => if w <= content.width as usize { w as u16 } else { content.width },
    };
    let high: u16 = if content.height >= 1 { 1 } else { 0 };
    Rect {
        x: content.x + (content.width - wide) / 2,
        y: content.y + (content.height - high) / 2,
        width: wide,
        height: high,
    }
}

/// A centred glyph lies inside its content area, and the free space on its
/// two sides differs by at most one cell, in each direction.
pub proof fn lemma_glyph_centered(content: Rect, columns: Option<usize>)
    requires
        content.is_valid(),
    ensures
        content.encloses(centered_glyph(content, columns)),
        ({
            let glyph = centered_glyph(content, columns);
            let before = glyph.left() - content.left();
            let after = content.right() - glyph.right();
            before <= after <= before + 1
        }),
        ({
            let glyph = centered_glyph(content, columns);
            let above = glyph.top() - content.top();
            let below = content.bottom() - glyph.bottom();
            above <= below <= above + 1
        }),
{
}

} // verus!
