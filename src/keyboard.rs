use vstd::prelude::*;

verus! {

/// A decoded user command: what one key press asks of the viewer.
#[derive(Clone, Copy, Debug, PartialEq, Eq, Structural)]
pub enum Command {
    Up,
    Down,
    Left,
    Right,
    Home,
    End,
    PageUp,
    PageDown,
    Quit,
    Unrecognized,
}

/// The key of a key press, as far as the viewer tells keys apart.
#[derive(Clone, Copy, Debug, PartialEq, Eq, Structural)]
pub enum Key {
    Char(char),
    Up,
    Down,
    Left,
    Right,
    Home,
    End,
    PageUp,
    PageDown,
    Other,
}

/// No modifier key held.
pub const NO_MODIFIERS: u8 = 0;

/// The bit of the control key in a modifier set (as the terminal library
/// numbers modifiers).
pub const CONTROL: u8 = 2;

/// A key press: the key and the set of modifier keys held, as bits.
#[derive(Clone, Copy, Debug, PartialEq, Eq, Structural)]
pub struct KeyPress {
    pub code: Key,
    pub modifiers: u8,
}

/// The command a key press stands for: Ctrl-q quits; the arrows, Home, End,
/// Page Up and Page Down with no modifier move; anything else is ignored.
pub open spec fn command_of(press: KeyPress) -> Command {
    if press.code == Key::Char('q') && press.modifiers == CONTROL {
        Command::Quit
    } else if press.modifiers != NO_MODIFIERS {
        Command::Unrecognized
    } else {
        match press.code {
            Key::Up => Command::Up,
            Key::Down => Command::Down,
            Key::Left => Command::Left,
            Key::Right => Command::Right,
            Key::Home => Command::Home,
            Key::End => Command::End,
            Key::PageUp => Command::PageUp,
            Key::PageDown => Command::PageDown,
            _ => Command::Unrecognized,
        }
    }
}

/// Decodes a key press into a command.
pub fn decode(press: KeyPress) -> (r: Command)
    ensures
        r == command_of(press),
{
    if press.code == Key::Char('q') && press.modifiers == CONTROL {
        return Command::Quit;
    }
    if press.modifiers != NO_MODIFIERS {
        return Command::Unrecognized;
    }
    match press.code {
        Key::Up => Command::Up,
        Key::Down => Command::Down,
        Key::Left => Command::Left,
        Key::Right => Command::Right,
        Key::Home => Command::Home,
        Key::End => Command::End,
        Key::PageUp => Command::PageUp,
        Key::PageDown => Command::PageDown,
        _ => Command::Unrecognized,
    }
}

/// The source of key presses. Reading them is the terminal's business; this
/// type only marks the role.
pub struct Keyboard;

impl Keyboard {
    pub fn new() -> Keyboard {
        Keyboard
    }
}

} // verus!
