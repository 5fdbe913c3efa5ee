use wordle_tui::app::{App, DEFAULT_CELL_SIZE};
use wordle_tui::cursor::Cursor;
use wordle_tui::board::{Board, Cell, FeedbackColor, COLS, PLACEHOLDER, ROWS};
use wordle_tui::error::AppError;
use wordle_tui::input::{key_command, request, Command, Event, Flow, KeyCode, KeyKind};

fn press(code: KeyCode) -> Event {
    Event::Key { code, kind: KeyKind::Press }
}

#[test]
fn cursor_starts_on_the_first_column() {
    assert_eq!(Cursor::new().column(), 0);
    assert_eq!(App::default().cursor.column(), 0);
}

#[test]
fn app_starts_with_a_blank_board_and_the_default_cell_size() {
    let app = App::default();
    assert_eq!(DEFAULT_CELL_SIZE, 5);
    assert_eq!(app.cell_size, 5);
    for row in 0..ROWS {
        for col in 0..COLS {
            assert_eq!(app.board.get(row, col), Ok(Cell::new(PLACEHOLDER, FeedbackColor::Blank)));
        }
    }
}

#[test]
fn previous_column_stays_on_the_first_column() {
    let mut cursor = Cursor::new();
    cursor.previous_column();
    assert_eq!(cursor.column(), 0);
    let mut app = App::default();
    app.previous_column();
    assert_eq!(app.cursor.column(), 0);
}

#[test]
fn next_column_stays_on_the_last_column() {
    let mut cursor = Cursor::new();
    for expected in [1, 2, 3, 4, 4, 4] {
        cursor.next_column();
        assert_eq!(cursor.column(), expected);
    }
    let mut app = App::default();
    for expected in [1, 2, 3, 4, 4] {
        app.next_column();
        assert_eq!(app.cursor.column(), expected);
    }
}

#[test]
fn cursor_walks_back_from_the_last_column() {
    let mut cursor = Cursor::new();
    for _ in 0..10 {
        cursor.next_column();
    }
    for expected in [3, 2, 1, 0, 0] {
        cursor.previous_column();
        assert_eq!(cursor.column(), expected);
    }
}

#[test]
fn moving_the_cursor_leaves_board_and_cell_size_alone() {
    let mut app = App::default();
    app.cell_size = 2;
    assert_eq!(app.board.set(4, 1, Cell::new('w', FeedbackColor::Yellow)), Ok(()));
    app.next_column();
    app.previous_column();
    app.next_column();
    assert_eq!(app.cell_size, 2);
    assert_eq!(app.board.get(4, 1), Ok(Cell::new('w', FeedbackColor::Yellow)));
    assert_eq!(app.board.get(0, 0), Ok(Cell::new(PLACEHOLDER, FeedbackColor::Blank)));
}

#[test]
fn key_table() {
    assert_eq!(key_command(KeyCode::Char('q')), Command::Quit);
    assert_eq!(key_command(KeyCode::Esc), Command::Quit);
    assert_eq!(key_command(KeyCode::Left), Command::PreviousColumn);
    assert_eq!(key_command(KeyCode::Char('h')), Command::PreviousColumn);
    assert_eq!(key_command(KeyCode::Right), Command::NextColumn);
    assert_eq!(key_command(KeyCode::Char('l')), Command::NextColumn);
    assert_eq!(key_command(KeyCode::Char('x')), Command::Ignore);
    assert_eq!(key_command(KeyCode::Char('Q')), Command::Ignore);
    assert_eq!(key_command(KeyCode::Char('H')), Command::Ignore);
    assert_eq!(key_command(KeyCode::Char('L')), Command::Ignore);
    assert_eq!(key_command(KeyCode::Other), Command::Ignore);
}

#[test]
fn only_a_press_asks_for_anything() {
    assert_eq!(request(press(KeyCode::Right)), Command::NextColumn);
    let released = Event::Key { code: KeyCode::Right, kind: KeyKind::Release };
    assert_eq!(request(released), Command::Ignore);
    let repeated = Event::Key { code: KeyCode::Esc, kind: KeyKind::Repeat };
    assert_eq!(request(repeated), Command::Ignore);
    assert_eq!(request(Event::Other), Command::Ignore);
    assert_eq!(request(Event::InputStreamClosed), Command::Ignore);
    assert_eq!(request(Event::RenderSurfaceUnavailable), Command::Ignore);
}

#[test]
fn handle_event_moves_and_redraws() {
    let mut app = App::default();
    assert_eq!(app.handle_event(press(KeyCode::Right)), Flow::Redraw);
    assert_eq!(app.cursor.column(), 1);
    assert_eq!(app.handle_event(press(KeyCode::Char('l'))), Flow::Redraw);
    assert_eq!(app.cursor.column(), 2);
    assert_eq!(app.handle_event(press(KeyCode::Left)), Flow::Redraw);
    assert_eq!(app.cursor.column(), 1);
    assert_eq!(app.handle_event(press(KeyCode::Char('h'))), Flow::Redraw);
    assert_eq!(app.cursor.column(), 0);
}

#[test]
fn right_right_left_ends_on_column_one() {
    let mut app = App::default();
    for code in [KeyCode::Right, KeyCode::Right, KeyCode::Left] {
        assert_eq!(app.handle_event(press(code)), Flow::Redraw);
    }
    assert_eq!(app.cursor.column(), 1);

    let events = vec![press(KeyCode::Right), press(KeyCode::Right), press(KeyCode::Left)];
    let report = App::default().run(&events).unwrap();
    assert_eq!(report.app.cursor.column(), 1);
    assert_eq!(report.redraws, 3);
}

#[test]
fn escape_first_leaves_at_once() {
    let mut app = App::default();
    assert_eq!(app.handle_event(press(KeyCode::Esc)), Flow::Quit);
    assert_eq!(app.cursor.column(), 0);

    let events = vec![press(KeyCode::Esc), press(KeyCode::Right), press(KeyCode::Right)];
    let report = App::default().run(&events).unwrap();
    assert_eq!(report.redraws, 0);
    assert_eq!(report.app.cursor.column(), 0);
}

#[test]
fn q_quits_like_escape() {
    let mut app = App::default();
    app.next_column();
    assert_eq!(app.handle_event(press(KeyCode::Char('q'))), Flow::Quit);
    assert_eq!(app.cursor.column(), 1);
}

#[test]
fn keys_without_meaning_still_redraw() {
    let mut app = App::default();
    app.next_column();
    for event in [
        press(KeyCode::Char('z')),
        press(KeyCode::Other),
        Event::Other,
        Event::Key { code: KeyCode::Right, kind: KeyKind::Release },
        Event::Key { code: KeyCode::Left, kind: KeyKind::Repeat },
        Event::Key { code: KeyCode::Esc, kind: KeyKind::Release },
        Event::Key { code: KeyCode::Char('q'), kind: KeyKind::Repeat },
    ] {
        assert_eq!(app.handle_event(event), Flow::Redraw);
        assert_eq!(app.cursor.column(), 1);
    }
}

#[test]
fn closed_input_is_a_request_to_quit() {
    let mut app = App::default();
    assert_eq!(app.handle_event(Event::InputStreamClosed), Flow::Quit);
    let events = vec![press(KeyCode::Right), Event::InputStreamClosed, press(KeyCode::Right)];
    let report = App::default().run(&events).unwrap();
    assert_eq!(report.app.cursor.column(), 1);
    assert_eq!(report.redraws, 1);
}

#[test]
fn lost_surface_aborts_the_run() {
    let mut app = App::default();
    assert_eq!(app.handle_event(Event::RenderSurfaceUnavailable), Flow::Abort);
    assert_eq!(app.cursor.column(), 0);
    let events = vec![press(KeyCode::Right), Event::RenderSurfaceUnavailable, press(KeyCode::Esc)];
    let end = App::default().run(&events);
    assert!(matches!(end, Err(AppError::RenderSurfaceUnavailable)));
    let first = vec![Event::RenderSurfaceUnavailable];
    assert!(matches!(App::default().run(&first), Err(AppError::RenderSurfaceUnavailable)));
}

#[test]
fn run_without_events_ends_where_it_began() {
    let report = App::default().run(&Vec::new()).unwrap();
    assert_eq!(report.redraws, 0);
    assert_eq!(report.app.cursor.column(), 0);
}

#[test]
fn run_counts_a_redraw_for_every_event_before_the_last() {
    let events = vec![
        press(KeyCode::Right),
        press(KeyCode::Char('x')),
        Event::Other,
        press(KeyCode::Right),
        press(KeyCode::Right),
        press(KeyCode::Right),
        press(KeyCode::Right),
        press(KeyCode::Left),
        press(KeyCode::Char('q')),
        press(KeyCode::Left),
    ];
    let report = App::default().run(&events).unwrap();
    assert_eq!(report.redraws, 8);
    assert_eq!(report.app.cursor.column(), 3);
}

#[test]
fn run_keeps_board_and_cell_size() {
    let mut board = Board::new();
    assert_eq!(board.set(5, 4, Cell::new('e', FeedbackColor::Green)), Ok(()));
    let app = App { cursor: Cursor::new(), cell_size: 3, board };
    let events = vec![press(KeyCode::Right), press(KeyCode::Esc)];
    let report = app.run(&events).unwrap();
    assert_eq!(report.app.cell_size, 3);
    assert_eq!(report.app.board.get(5, 4), Ok(Cell::new('e', FeedbackColor::Green)));
    assert_eq!(report.app.board.get(0, 0), Ok(Cell::new(PLACEHOLDER, FeedbackColor::Blank)));
    assert_eq!(report.app.cursor.column(), 1);
}
