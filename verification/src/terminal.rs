//! What the editor knows of the terminal: the size of its text area and the
//! keys that it sends.

use vstd::prelude::*;

verus! {

/// The size of the text area, in character cells.
#[derive(Clone, Copy, Debug, PartialEq, Eq, Structural)]
pub struct Size {
    /// The number of columns.
    pub width: u16,
    /// The number of rows.
    pub height: u16,
}

/// The rows at the bottom of the terminal that show no text: the status bar
/// and the message bar.
pub const STATUS_ROWS: u16 = 2;

impl Size {
    /// The text area of a terminal of `columns` by `lines` cells: all of its
    /// columns, and all of its lines but the [`STATUS_ROWS`] at the bottom.
    pub fn text_area(columns: u16, lines: u16) -> (size: Size)
        ensures
            size.width == columns,
            size.height == if lines > STATUS_ROWS {
                lines - STATUS_ROWS
            } else {
                0
            },
    {
        Size { width: columns, height: lines.saturating_sub(STATUS_ROWS) }
    }
}

/// A key press.
#[derive(Clone, Copy, Debug, PartialEq, Eq, Structural)]
pub enum Key {
    /// Backspace.
    Backspace,
    /// Left arrow.
    Left,
    /// Right arrow.
    Right,
    /// Up arrow.
    Up,
    /// Down arrow.
    Down,
    /// Home.
    Home,
    /// End.
    End,
    /// Page up.
    PageUp,
    /// Page down.
    PageDown,
    /// Backward tab.
    BackTab,
    /// Delete.
    Delete,
    /// Insert.
    Insert,
    /// A function key, by its number.
    F(u8),
    /// A character.
    Char(char),
    /// A character with Alt held.
    Alt(char),
    /// A character with Ctrl held.
    Ctrl(char),
    /// The null byte.
    Null,
    /// Escape.
    Esc,
}

impl Key {
    /// Whether the key moves the cursor.
    pub open spec fn is_motion(self) -> bool {
        match self {
            Key::Up
            | Key::Down
            | Key::Left
            | Key::Right
            | Key::PageUp
            | Key::PageDown
            | Key::Home
            | Key::End => true,
            _ => false,
        }
    }

    /// Whether the key is the chord that ends the session, Ctrl-Q.
    pub open spec fn is_quit(self) -> bool {
        self == Key::Ctrl('q')
    }
}

} // verus!
