use wordle_tui::board::{Board, Cell, FeedbackColor, COLS, PLACEHOLDER, ROWS};
use wordle_tui::error::AppError;

#[test]
fn board_has_six_rows_of_five() {
    assert_eq!(ROWS, 6);
    assert_eq!(COLS, 5);
    assert_eq!(PLACEHOLDER, 'a');
}

#[test]
fn fresh_board_is_blank_everywhere() {
    let board = Board::new();
    let mut seen = 0;
    for row in 0..ROWS {
        for col in 0..COLS {
            let cell = board.get(row, col).unwrap();
            assert_eq!(cell.letter, PLACEHOLDER);
            assert_eq!(cell.color, FeedbackColor::Blank);
            seen += 1;
        }
    }
    assert_eq!(seen, 30);
}

#[test]
fn cell_new_keeps_letter_and_color() {
    let cell = Cell::new('Q', FeedbackColor::Yellow);
    assert_eq!(cell.letter, 'Q');
    assert_eq!(cell.color, FeedbackColor::Yellow);
}

#[test]
fn set_touches_one_cell_only() {
    let mut board = Board::new();
    let written = Cell::new('A', FeedbackColor::Green);
    assert_eq!(board.set(2, 3, written), Ok(()));
    for row in 0..ROWS {
        for col in 0..COLS {
            let expected = if (row, col) == (2, 3) {
                written
            } else {
                Cell::new(PLACEHOLDER, FeedbackColor::Blank)
            };
            assert_eq!(board.get(row, col), Ok(expected));
        }
    }
}

#[test]
fn set_overwrites_what_was_set_before() {
    let mut board = Board::new();
    assert_eq!(board.set(0, 0, Cell::new('x', FeedbackColor::Gray)), Ok(()));
    assert_eq!(board.set(0, 0, Cell::new('y', FeedbackColor::Yellow)), Ok(()));
    assert_eq!(board.get(0, 0), Ok(Cell::new('y', FeedbackColor::Yellow)));
}

#[test]
fn corners_of_the_board_can_be_written() {
    let mut board = Board::new();
    let corners = [(0, 0), (0, 4), (5, 0), (5, 4)];
    for (i, (row, col)) in corners.iter().enumerate() {
        let letter = ['p', 'q', 'r', 's'][i];
        assert_eq!(board.set(*row, *col, Cell::new(letter, FeedbackColor::Green)), Ok(()));
    }
    assert_eq!(board.get(0, 0).unwrap().letter, 'p');
    assert_eq!(board.get(0, 4).unwrap().letter, 'q');
    assert_eq!(board.get(5, 0).unwrap().letter, 'r');
    assert_eq!(board.get(5, 4).unwrap().letter, 's');
    assert_eq!(board.get(3, 2).unwrap().letter, PLACEHOLDER);
}

#[test]
fn access_outside_the_board_is_out_of_range() {
    let mut board = Board::new();
    assert_eq!(board.get(6, 0), Err(AppError::OutOfRange));
    assert_eq!(board.get(0, 5), Err(AppError::OutOfRange));
    assert_eq!(board.get(usize::MAX, usize::MAX), Err(AppError::OutOfRange));
    let cell = Cell::new('z', FeedbackColor::Gray);
    assert_eq!(board.set(6, 4, cell), Err(AppError::OutOfRange));
    assert_eq!(board.set(5, 5, cell), Err(AppError::OutOfRange));
    assert_eq!(board.get(5, 4), Ok(Cell::new(PLACEHOLDER, FeedbackColor::Blank)));
}

#[test]
fn refused_set_leaves_the_board_as_it_was() {
    let mut board = Board::new();
    assert_eq!(board.set(1, 1, Cell::new('k', FeedbackColor::Yellow)), Ok(()));
    assert_eq!(board.set(6, 1, Cell::new('m', FeedbackColor::Green)), Err(AppError::OutOfRange));
    for row in 0..ROWS {
        for col in 0..COLS {
            let expected = if (row, col) == (1, 1) {
                Cell::new('k', FeedbackColor::Yellow)
            } else {
                Cell::new(PLACEHOLDER, FeedbackColor::Blank)
            };
            assert_eq!(board.get(row, col), Ok(expected));
        }
    }
}
