//! Decoded key events, editor commands, and the pure mapping from one to the
//! other. The mapping is side-effect free; applying a command to the editor
//! state lives with the editor itself.

use vstd::prelude::*;

verus! {

/// A key, decoded into the editor's own terms.
#[derive(Clone, Copy, Debug, PartialEq, Eq, Structural)]
pub enum Key {
    Char(char),
    Tab,
    Enter,
    Backspace,
    Up,
    Down,
    Left,
    Right,
    PageUp,
    PageDown,
    Home,
    End,
    Other,
}

/// The modifier set held with the key, collapsed to the distinctions the
/// dispatch cares about: no modifier, shift alone, control alone, anything
/// else.
#[derive(Clone, Copy, Debug, PartialEq, Eq, Structural)]
pub enum Mods {
    Plain,
    Shift,
    Control,
    Other,
}

/// A decoded key event: the key together with its modifiers.
#[derive(Clone, Copy, Debug, PartialEq, Eq, Structural)]
pub struct KeyInput {
    pub key: Key,
    pub mods: Mods,
}

/// What a key event asks the editor to do.
#[derive(Clone, Copy, Debug, PartialEq, Eq, Structural)]
pub enum Command {
    /// Leave the run loop.
    Quit,
    /// Move the cursor by a signed delta.
    MoveBy { dx: i32, dy: i32 },
    /// Move down by one viewport height less one line.
    PageDown,
    /// Move up by one viewport height plus two lines.
    PageUp,
    /// Move to column 0 of the current row.
    Home,
    /// Move just past the last character of the current row.
    End,
    /// Insert a character at the cursor.
    Insert(char),
    /// Split the current line at the cursor.
    SplitLine,
    /// Delete backward: merge with the previous line at column 0, otherwise
    /// remove the character before the cursor.
    MergeBack,
    /// Do nothing.
    Ignore,
}

/// The dispatch table. Control-c quits; plain arrows, paging and Home/End
/// move; plain Enter splits the line; plain Backspace deletes backward; a
/// character or Tab with no modifier or shift alone is inserted (Tab as a
/// literal tab character); everything else is ignored.
pub open spec fn decode_spec(k: KeyInput) -> Command {
    match (k.key, k.mods) {
        (Key::Char(c), Mods::Control) => if c == 'c' {
            Command::Quit
        } else {
            Command::Ignore
        },
        (Key::Down, Mods::Plain) => Command::MoveBy { dx: 0i32, dy: 1i32 },
        (Key::Up, Mods::Plain) => Command::MoveBy { dx: 0i32, dy: -1i32 },
        (Key::PageDown, Mods::Plain) => Command::PageDown,
        (Key::PageUp, Mods::Plain) => Command::PageUp,
        (Key::Left, Mods::Plain) => Command::MoveBy { dx: -1i32, dy: 0i32 },
        (Key::Right, Mods::Plain) => Command::MoveBy { dx: 1i32, dy: 0i32 },
        (Key::Home, Mods::Plain) => Command::Home,
        (Key::End, Mods::Plain) => Command::End,
        (Key::Enter, Mods::Plain) => Command::SplitLine,
        (Key::Backspace, Mods::Plain) => Command::MergeBack,
        (Key::Char(c), Mods::Plain) => Command::Insert(c),
        (Key::Char(c), Mods::Shift) => Command::Insert(c),
        (Key::Tab, Mods::Plain) => Command::Insert('\t'),
        (Key::Tab, Mods::Shift) => Command::Insert('\t'),
        _ => Command::Ignore,
    }
}

/// Maps a key event to its command, exactly as `decode_spec` says.
pub fn decode_key(k: KeyInput) -> (c: Command)
    ensures
        c == decode_spec(k),
{
    match (k.key, k.mods) {
        (Key::Char(c), Mods::Control) => if c == 'c' {
            Command::Quit
        } else {
            Command::Ignore
        },
        (Key::Down, Mods::Plain) => Command::MoveBy { dx: 0i32, dy: 1i32 },
        (Key::Up, Mods::Plain) => Command::MoveBy { dx: 0i32, dy: -1i32 },
        (Key::PageDown, Mods::Plain) => Command::PageDown,
        (Key::PageUp, Mods::Plain) => Command::PageUp,
        (Key::Left, Mods::Plain) => Command::MoveBy { dx: -1i32, dy: 0i32 },
        (Key::Right, Mods::Plain) => Command::MoveBy { dx: 1i32, dy: 0i32 },
        (Key::Home, Mods::Plain) => Command::Home,
        (Key::End, Mods::Plain) => Command::End,
        (Key::Enter, Mods::Plain) => Command::SplitLine,
        (Key::Backspace, Mods::Plain) => Command::MergeBack,
        (Key::Char(c), Mods::Plain) => Command::Insert(c),
        (Key::Char(c), Mods::Shift) => Command::Insert(c),
        (Key::Tab, Mods::Plain) => Command::Insert('\t'),
        (Key::Tab, Mods::Shift) => Command::Insert('\t'),
        _ => Command::Ignore,
    }
}

} // verus!
