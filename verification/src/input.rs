//! Input events and what they mean.

use vstd::prelude::*;

verus! {

/// The key of a key event, as far as the board tells keys apart.
#[derive(Clone, Copy, Debug, PartialEq, Eq, Structural)]
pub enum KeyCode {
    /// A character key.
    Char(char),
    /// Escape.
    Esc,
    /// Left arrow.
    Left,
    /// Right arrow.
    Right,
    /// Any other key.
    Other,
}

/// What happened to the key.
#[derive(Clone, Copy, Debug, PartialEq, Eq, Structural)]
pub enum KeyKind {
    /// The key went down.
    Press,
    /// The key came up.
    Release,
    /// The key is held down.
    Repeat,
}

/// What the run loop is told after it has drawn a frame.
#[derive(Clone, Copy, Debug, PartialEq, Eq, Structural)]
pub enum Event {
    /// A key event.
    Key { code: KeyCode, kind: KeyKind },
    /// An event that is not a key event: a resize, the mouse.
    Other,
    /// The input has ended.
    InputStreamClosed,
    /// The frame could not be drawn.
    RenderSurfaceUnavailable,
}

/// What a pressed key asks for.
#[derive(Clone, Copy, Debug, PartialEq, Eq, Structural)]
pub enum Command {
    /// End the session.
    Quit,
    /// Move the cursor one column left.
    PreviousColumn,
    /// Move the cursor one column right.
    NextColumn,
    /// Nothing: the key has no meaning.
    Ignore,
}

/// What the run loop does next.
#[derive(Clone, Copy, Debug, PartialEq, Eq, Structural)]
pub enum Flow {
    /// Draw a frame and wait for the next event.
    Redraw,
    /// Leave the loop; the session ended as the user wished.
    Quit,
    /// Leave the loop with `AppError::RenderSurfaceUnavailable`.
    Abort,
}

/// The key table: `q` and Escape quit, `h` and the left arrow move the
/// cursor left, `l` and the right arrow move it right, and no other key
/// means anything.
pub open spec fn command_of(code: KeyCode) -> Command {
    if code == KeyCode::Char('q') || code == KeyCode::Esc {
        Command::Quit
    } else if code == KeyCode::Char('h') || code == KeyCode::Left {
        Command::PreviousColumn
    } else if code == KeyCode::Char('l') || code == KeyCode::Right {
        Command::NextColumn
    } else {
        Command::Ignore
    }
}

/// What an event asks for: a pressed key what the key table says, anything
/// else nothing. A key that is released or repeats is not a press.
pub open spec fn request_of(event: Event) -> Command {
    match event {
        Event::Key { code, kind: KeyKind::Press } => command_of(code),
        _ => Command::Ignore,
    }
}

/// What the loop does after an event: it leaves on a request to quit and
/// when the input has ended, it gives up when the frame could not be
/// drawn, and it redraws after everything else, a key without meaning
/// included.
pub open spec fn flow_of(event: Event) -> Flow {
    match event {
        Event::InputStreamClosed => Flow::Quit,
        Event::RenderSurfaceUnavailable => Flow::Abort,
        _ => if request_of(event) == Command::Quit {
            Flow::Quit
        } else {
            Flow::Redraw
        },
    }
}

/// Looks a key up in the key table.
pub fn key_command(code: KeyCode) -> (command: Command)
    ensures
        command == command_of(code),
{
    match code {
        KeyCode::Esc => Command::Quit,
        KeyCode::Left => Command::PreviousColumn,
        KeyCode::Right => Command::NextColumn,
        KeyCode::Char(c) => if c == 'q' {
            Command::Quit
        } else if c == 'h' {
            Command::PreviousColumn
        } else if c == 'l' {
            Command::NextColumn
        } else {
            Command::Ignore
        },
        KeyCode::Other => Command::Ignore,
    }
}

/// What an event asks for.
pub fn request(event: Event) -> (command: Command)
    ensures
        command == request_of(event),
{
    match event {
        Event::Key { code, kind: KeyKind::Press } => key_command(code),
        _ => Command::Ignore,
    }
}

} // verus!
