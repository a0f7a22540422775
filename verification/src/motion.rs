//! The rules by which a key moves the cursor and the window follows it,
//! stated over the text of the document and mathematical integers.

use crate::terminal::Key;
use vstd::prelude::*;

verus! {

/// A place in the document: column `x` of line `y`, both counted from zero.
pub struct Point {
    pub x: int,
    pub y: int,
}

/// Whether a `usize` counts the lines of `rows` and the columns of each.
pub open spec fn countable(rows: Seq<Seq<char>>) -> bool {
    &&& rows.len() <= usize::MAX
    &&& forall|y: int| 0 <= y < rows.len() ==> (#[trigger] rows[y]).len() <= usize::MAX
}

/// The width of line `y` of `rows`: zero where there is no such line.
pub open spec fn width_at(rows: Seq<Seq<char>>, y: int) -> int {
    if 0 <= y < rows.len() {
        rows[y].len() as int
    } else {
        0
    }
}

/// Whether `at` is a place where the cursor may rest: on a line of `rows` or
/// on the line just below the last one, and not behind the end of its line.
pub open spec fn on_text(rows: Seq<Seq<char>>, at: Point) -> bool {
    &&& 0 <= at.y <= rows.len()
    &&& 0 <= at.x <= width_at(rows, at.y)
}

/// Where `key` takes the cursor from `at`, before the column is fitted to the
/// line it arrives on. `page` is the number of lines that Page Up and Page
/// Down travel.
pub open spec fn target(rows: Seq<Seq<char>>, page: int, at: Point, key: Key) -> Point {
    let width = width_at(rows, at.y);
    let height = rows.len() as int;
    match key {
        Key::Right => if at.x < width {
            Point { x: at.x + 1, y: at.y }
        } else if at.y < height {
            Point { x: 0, y: at.y + 1 }
        } else {
            at
        },
        Key::Left => if at.x > 0 {
            Point { x: at.x - 1, y: at.y }
        } else if at.y > 0 {
            Point { x: width_at(rows, at.y - 1), y: at.y - 1 }
        } else {
            at
        },
        Key::Down => if at.y < height {
            Point { x: at.x, y: at.y + 1 }
        } else {
            at
        },
        Key::Up => Point { x: at.x, y: if at.y > 0 { at.y - 1 } else { 0 } },
        Key::PageUp => Point { x: at.x, y: if at.y > page { at.y - page } else { 0 } },
        Key::PageDown => Point {
            x: at.x,
            y: if at.y + page < height { at.y + page } else { height },
        },
        Key::Home => Point { x: 0, y: at.y },
        Key::End => Point { x: width, y: at.y },
        _ => at,
    }
}

/// `at` with its column brought back to the end of its line where it lies
/// behind it.
pub open spec fn fitted(rows: Seq<Seq<char>>, at: Point) -> Point {
    let width = width_at(rows, at.y);
    Point { x: if at.x > width { width } else { at.x }, y: at.y }
}

/// Where `key` takes the cursor from `at`.
pub open spec fn step(rows: Seq<Seq<char>>, page: int, at: Point, key: Key) -> Point {
    fitted(rows, target(rows, page, at, key))
}

/// The start of a window of `extent` cells that began at `offset`, after it
/// has followed the cursor to `at`: it moves only as far as it must.
pub open spec fn follow(at: int, offset: int, extent: int) -> int {
    if at < offset {
        at
    } else if at >= offset + extent {
        at - extent + 1
    } else {
        offset
    }
}

/// Whether a window of `extent` cells that starts at `offset` shows `at`.
pub open spec fn shows(at: int, offset: int, extent: int) -> bool {
    offset <= at < offset + extent
}

/// At the start of the document, Left does nothing.
pub proof fn left_at_start_stays(rows: Seq<Seq<char>>, page: int)
    ensures
        step(rows, page, Point { x: 0, y: 0 }, Key::Left) == (Point { x: 0, y: 0 }),
{
}

/// Below the last line, where the document ends, Right does nothing.
pub proof fn right_at_end_stays(rows: Seq<Seq<char>>, page: int)
    ensures
        step(rows, page, Point { x: 0, y: rows.len() as int }, Key::Right) == (Point {
            x: 0,
            y: rows.len() as int,
        }),
{
}

/// At the end of a line of the document, Right goes to the start of the next
/// line, which for the last line is the line below the text.
pub proof fn right_at_line_end_wraps(rows: Seq<Seq<char>>, page: int, y: int)
    requires
        0 <= y < rows.len(),
    ensures
        step(rows, page, Point { x: width_at(rows, y), y }, Key::Right) == (Point {
            x: 0,
            y: y + 1,
        }),
{
}

/// At the start of a line but the first, Left goes to the end of the line
/// above.
pub proof fn left_at_line_start_wraps(rows: Seq<Seq<char>>, page: int, y: int)
    requires
        0 < y <= rows.len(),
    ensures
        step(rows, page, Point { x: 0, y }, Key::Left) == (Point {
            x: width_at(rows, y - 1),
            y: y - 1,
        }),
{
}

/// Whatever the key and wherever the cursor was, it is not behind the end of
/// the line that it arrives on.
pub proof fn step_fits_column(rows: Seq<Seq<char>>, page: int, at: Point, key: Key)
    ensures
        step(rows, page, at, key).x <= width_at(rows, step(rows, page, at, key).y),
{
}

/// A cursor that rests on the text still does after any key.
pub proof fn step_stays_on_text(rows: Seq<Seq<char>>, page: int, at: Point, key: Key)
    requires
        on_text(rows, at),
        0 <= page,
    ensures
        on_text(rows, step(rows, page, at, key)),
{
}

/// A window of at least one cell shows the cursor once it has followed it.
pub proof fn follow_shows(at: int, offset: int, extent: int)
    requires
        1 <= extent,
    ensures
        shows(at, follow(at, offset, extent), extent),
{
}

/// A window that shows the cursor does not move.
pub proof fn follow_is_stable(at: int, offset: int, extent: int)
    requires
        shows(at, offset, extent),
    ensures
        follow(at, offset, extent) == offset,
{
}

} // verus!
