use wordle_tui::board::FeedbackColor;
use wordle_tui::palette::{
    display_color, Rgb, TableColors, BLUE_400, GRAY_500, GREEN_500, SLATE_900, SLATE_950,
    YELLOW_500,
};

#[test]
fn from_hex_splits_the_three_parts() {
    assert_eq!(Rgb::from_hex(0x22c55e), Rgb { r: 0x22, g: 0xc5, b: 0x5e });
    assert_eq!(Rgb::from_hex(0x000000), Rgb { r: 0, g: 0, b: 0 });
    assert_eq!(Rgb::from_hex(0xffffff), Rgb { r: 255, g: 255, b: 255 });
    assert_eq!(Rgb::from_hex(0x010203), Rgb { r: 1, g: 2, b: 3 });
}

#[test]
fn from_hex_ignores_digits_above_the_sixth() {
    assert_eq!(Rgb::from_hex(0xab123456), Rgb { r: 0x12, g: 0x34, b: 0x56 });
    assert_eq!(Rgb::from_hex(u32::MAX), Rgb { r: 255, g: 255, b: 255 });
}

#[test]
fn every_feedback_color_has_its_display_color() {
    assert_eq!(display_color(FeedbackColor::Blank), Rgb { r: 15, g: 23, b: 42 });
    assert_eq!(display_color(FeedbackColor::Gray), Rgb { r: 107, g: 114, b: 128 });
    assert_eq!(display_color(FeedbackColor::Yellow), Rgb { r: 234, g: 179, b: 8 });
    assert_eq!(display_color(FeedbackColor::Green), Rgb { r: 34, g: 197, b: 94 });
}

#[test]
fn display_colors_come_from_the_named_shades() {
    assert_eq!(display_color(FeedbackColor::Blank), Rgb::from_hex(SLATE_900));
    assert_eq!(display_color(FeedbackColor::Gray), Rgb::from_hex(GRAY_500));
    assert_eq!(display_color(FeedbackColor::Yellow), Rgb::from_hex(YELLOW_500));
    assert_eq!(display_color(FeedbackColor::Green), Rgb::from_hex(GREEN_500));
}

#[test]
fn no_two_feedback_colors_are_shown_alike() {
    let all = [
        FeedbackColor::Blank,
        FeedbackColor::Gray,
        FeedbackColor::Yellow,
        FeedbackColor::Green,
    ];
    for (i, first) in all.iter().enumerate() {
        for (j, second) in all.iter().enumerate() {
            if i != j {
                assert_ne!(display_color(*first), display_color(*second));
            } else {
                assert_eq!(display_color(*first), display_color(*second));
            }
        }
    }
}

#[test]
fn table_colors_keep_slate_rows_and_take_the_accent() {
    let accent = Rgb::from_hex(BLUE_400);
    let colors = TableColors::new(accent);
    assert_eq!(colors.normal_row_color, Rgb::from_hex(SLATE_950));
    assert_eq!(colors.normal_row_color, Rgb { r: 2, g: 6, b: 23 });
    assert_eq!(colors.alt_row_color, Rgb { r: 15, g: 23, b: 42 });
    assert_eq!(colors.footer_border_color, Rgb { r: 0x60, g: 0xa5, b: 0xfa });
}
