//! Display colours: the one each feedback state is painted with, and the
//! few the surrounding table uses.

use vstd::prelude::*;
use crate::board::FeedbackColor;

verus! {

/// A display colour by its red, green and blue parts.
#[derive(Clone, Copy, Debug, PartialEq, Eq, Structural)]
pub struct Rgb {
    /// Red.
    pub r: u8,
    /// Green.
    pub g: u8,
    /// Blue.
    pub b: u8,
}

impl Rgb {
    /// The colour written as six hexadecimal digits, two for each part.
    pub open spec fn of_hex(hex: u32) -> Rgb {
        Rgb {
            r: (hex / 0x1_0000 % 0x100) as u8,
            g: (hex / 0x100 % 0x100) as u8,
            b: (hex % 0x100) as u8,
        }
    }

    /// The colour written as six hexadecimal digits; digits above the
    /// sixth are ignored.
    pub fn from_hex(hex: u32) -> (color: Rgb)
        ensures
            color == Rgb::of_hex(hex),
    {
        Rgb {
            r: (hex / 0x1_0000 % 0x100) as u8,
            g: (hex / 0x100 % 0x100) as u8,
            b: (hex % 0x100) as u8,
        }
    }
}

/// Slate, darkest shade: the table's background.
pub const SLATE_950: u32 = 0x020617;

/// Slate, second darkest shade: alternate rows and cells not judged yet.
pub const SLATE_900: u32 = 0x0f172a;

/// Muted gray: a letter that is not in the word.
pub const GRAY_500: u32 = 0x6b7280;

/// Yellow: a letter that is in the word, elsewhere.
pub const YELLOW_500: u32 = 0xeab308;

/// Green: a letter in its place.
pub const GREEN_500: u32 = 0x22c55e;

/// Light blue: the accent the footer's border is usually given.
pub const BLUE_400: u32 = 0x60a5fa;

/// The colour a feedback state is painted with.
pub open spec fn display_color_of(color: FeedbackColor) -> Rgb {
    match color {
        FeedbackColor::Blank => Rgb::of_hex(SLATE_900),
        FeedbackColor::Gray => Rgb::of_hex(GRAY_500),
        FeedbackColor::Yellow => Rgb::of_hex(YELLOW_500),
        FeedbackColor::Green => Rgb::of_hex(GREEN_500),
    }
}

/// The colour a feedback state is painted with. Every state has one, and
/// no two states share it (`lemma_display_colors_distinct`).
pub fn display_color(color: FeedbackColor) -> (shown: Rgb)
    ensures
        shown == display_color_of(color),
{
    match color {
        FeedbackColor::Blank => Rgb::from_hex(SLATE_900),
        FeedbackColor::Gray => Rgb::from_hex(GRAY_500),
        FeedbackColor::Yellow => Rgb::from_hex(YELLOW_500),
        FeedbackColor::Green => Rgb::from_hex(GREEN_500),
    }
}

/// Two different feedback states are never painted alike.
pub proof fn lemma_display_colors_distinct(first: FeedbackColor, second: FeedbackColor)
    requires
        first != second,
    ensures
        display_color_of(first) != display_color_of(second),
{
}

/// The colours of the table around the cells.
#[derive(Clone, Copy, Debug, PartialEq, Eq, Structural)]
pub struct TableColors {
    /// Background of the table.
    pub normal_row_color: Rgb,
    /// Background of what stands out: the cells of the cursor's column.
    pub alt_row_color: Rgb,
    /// Border of the footer.
    pub footer_border_color: Rgb,
}

impl TableColors {
    /// The table's colours with the given accent on the footer's border;
    /// the rows are slate whatever the accent.
    pub fn new(accent: Rgb) -> (colors: TableColors)
        ensures
            colors == (TableColors {
                normal_row_color: Rgb::of_hex(SLATE_950),
                alt_row_color: Rgb::of_hex(SLATE_900),
                footer_border_color: accent,
            }),
    {
        TableColors {
            normal_row_color: Rgb::from_hex(SLATE_950),
            alt_row_color: Rgb::from_hex(SLATE_900),
            footer_border_color: accent,
        }
    }
}

} // verus!
