//! Input dispatch: the translation of raw key and mouse events into
//! navigation commands or the quit signal. The surrounding application polls
//! the canvas backend and hands each event here as a plain value.

use vstd::prelude::*;

verus! {

/// A raw input event, already stripped of the backend's key constants.
#[derive(Clone, Copy, Debug, PartialEq, Eq, Structural)]
pub enum KeyEvent {
    Up,
    Down,
    Left,
    Right,
    WheelUp,
    WheelDown,
    Glyph(char),
    NoInput,
}

/// What one event asks of the viewer.
#[derive(Clone, Copy, Debug, PartialEq, Eq, Structural)]
pub enum Command {
    ScrollUp,
    ScrollDown,
    ScrollLeft,
    ScrollRight,
    Quit,
    Ignore,
}

/// The command an event maps to: arrow keys scroll; the mouse wheel scrolls
/// horizontally; `q`/`Q` quits; everything else (and no input) is ignored.
pub open spec fn dispatch_spec(event: KeyEvent) -> Command {
    match event {
        KeyEvent::Up => Command::ScrollUp,
        KeyEvent::Down => Command::ScrollDown,
        KeyEvent::Left => Command::ScrollLeft,
        KeyEvent::Right => Command::ScrollRight,
        KeyEvent::WheelUp => Command::ScrollLeft,
        KeyEvent::WheelDown => Command::ScrollRight,
        KeyEvent::Glyph(g) => if g == 'q' || g == 'Q' {
            Command::Quit
        } else {
            Command::Ignore
        },
        KeyEvent::NoInput => Command::Ignore,
    }
}

/// Translates one raw event into a command.
pub fn dispatch(event: KeyEvent) -> (command: Command)
    ensures
        command == dispatch_spec(event),
{
    match event {
        KeyEvent::Up => Command::ScrollUp,
        KeyEvent::Down => Command::ScrollDown,
        KeyEvent::Left => Command::ScrollLeft,
        KeyEvent::Right => Command::ScrollRight,
        KeyEvent::WheelUp => Command::ScrollLeft,
        KeyEvent::WheelDown => Command::ScrollRight,
        KeyEvent::Glyph(g) => if g == 'q' || g == 'Q' {
            Command::Quit
        } else {
            Command::Ignore
        },
        KeyEvent::NoInput => Command::Ignore,
    }
}

} // verus!
