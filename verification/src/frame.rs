//! What one frame of the screen shows.

use crate::editor::Position;
use crate::motion::Point;
use crate::text::blank;
use vstd::prelude::*;

verus! {

/// The version that the welcome message names.
pub const VERSION: &'static str = "0.1.0";

/// The background colour of the status bar: red, green and blue.
pub const STATUS_BG_COLOR: (u8, u8, u8) = (239, 239, 239);

/// The line that greets the reader of an empty document on a text area of
/// `width` columns: a tilde, then the message, moved towards the middle by
/// half of the columns that it leaves free, less the one of the tilde; all of
/// it cut off at `width` columns.
pub open spec fn welcome_message(width: int) -> Seq<char> {
    let message = "Hecto editor -- version "@ + VERSION@;
    let padding = if width > message.len() {
        (width - message.len()) / 2
    } else {
        0
    };
    let line = seq!['~'] + blank(if padding > 0 { padding - 1 } else { 0 }) + message;
    line.take(if width < line.len() { width } else { line.len() as int })
}

/// The texts of `lines`, in their order.
pub open spec fn texts(lines: Seq<String>) -> Seq<Seq<char>> {
    Seq::new(lines.len(), |i: int| lines[i]@)
}

/// What the editor shows at one moment.
#[derive(Debug, PartialEq, Eq)]
pub enum Frame {
    /// The session has ended: the screen is cleared and shows `message`.
    Farewell { message: String },
    /// The session goes on.
    Screen {
        /// The text of each row of the text area, from the top.
        rows: Vec<String>,
        /// The text of the status bar, drawn below the rows on
        /// [`STATUS_BG_COLOR`].
        status_bar: String,
        /// Where on the screen the cursor stands.
        cursor: Position,
    },
}

/// A frame as mathematical values.
pub enum FrameView {
    Farewell { message: Seq<char> },
    Screen { rows: Seq<Seq<char>>, status_bar: Seq<char>, cursor: Point },
}

impl View for Frame {
    type V = FrameView;

    open spec fn view(&self) -> FrameView {
        match self {
            Frame::Farewell { message } => FrameView::Farewell { message: message@ },
            Frame::Screen { rows, status_bar, cursor } => FrameView::Screen {
                rows: texts(rows@),
                status_bar: status_bar@,
                cursor: cursor@,
            },
        }
    }
}

/// The views of `frames`, in their order.
pub open spec fn views(frames: Seq<Frame>) -> Seq<FrameView> {
    Seq::new(frames.len(), |i: int| frames[i]@)
}

} // verus!
