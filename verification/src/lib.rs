//! The navigation and rendering core of a terminal text viewer.
//!
//! A [`Document`] is the text of a file, one [`Row`] per line. An [`Editor`]
//! keeps a cursor inside the document and a window of the size of the terminal
//! over it: it takes keys, moves the cursor, scrolls the window after it, and
//! says for each frame what every row of the screen shows. Reading keys and
//! files and writing to the terminal are left to the caller.

pub mod document;
pub mod editor;
pub mod frame;
pub mod motion;
pub mod row;
pub mod terminal;
pub mod text;

pub use document::Document;
pub use editor::{Editor, Position};
pub use frame::Frame;
pub use row::Row;
pub use terminal::{Key, Size};
