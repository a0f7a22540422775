//! The editor: a cursor in a document and a window over it.

use crate::document::Document;
use crate::frame::{texts, views, welcome_message, Frame, FrameView, VERSION};
use crate::motion::{countable, follow, on_text, shows, step, width_at, Point};
use crate::row::{clip, Row};
use crate::terminal::{Key, Size};
use crate::text::{blank, spaces};
use vstd::prelude::*;

verus! {

/// A place in the document, or on the screen: column `x` of line `y`, both
/// counted from zero.
#[derive(Clone, Copy, Debug, PartialEq, Eq, Structural)]
pub struct Position {
    pub x: usize,
    pub y: usize,
}

impl View for Position {
    type V = Point;

    open spec fn view(&self) -> Point {
        Point { x: self.x as int, y: self.y as int }
    }
}

impl Default for Position {
    /// The first column of the first line.
    fn default() -> (position: Position)
        ensures
            position == (Position { x: 0, y: 0 }),
    {
        Position { x: 0, y: 0 }
    }
}

/// What an editor is made of, as mathematical values.
pub struct EditorView {
    /// Whether the session has ended.
    pub should_quit: bool,
    /// The size of the text area.
    pub size: Size,
    /// Where the cursor is in the document.
    pub cursor: Point,
    /// The place of the document that the top left cell of the window shows.
    pub offset: Point,
    /// The text of the document.
    pub rows: Seq<Seq<char>>,
    /// The name of the file that the document was read from, where it was
    /// read from one.
    pub file_name: Option<Seq<char>>,
}

/// `value`, or the largest `usize` where it is greater.
pub open spec fn capped(value: int) -> int {
    if value > usize::MAX {
        usize::MAX as int
    } else {
        value
    }
}

impl EditorView {
    /// The editor after the cursor has moved as `key` says.
    pub open spec fn moved(self, key: Key) -> EditorView {
        EditorView { cursor: step(self.rows, self.size.height as int, self.cursor, key), ..self }
    }

    /// The editor after the window has followed the cursor. An offset that no
    /// `usize` counts is brought back to the largest one; that happens only
    /// in a text area without a cell.
    pub open spec fn scrolled(self) -> EditorView {
        EditorView {
            offset: Point {
                x: capped(follow(self.cursor.x, self.offset.x, self.size.width as int)),
                y: capped(follow(self.cursor.y, self.offset.y, self.size.height as int)),
            },
            ..self
        }
    }

    /// The editor after it has taken `key`: Ctrl-Q ends the session, a motion
    /// key moves the cursor, any other key does nothing; then the window
    /// follows the cursor.
    pub open spec fn pressed(self, key: Key) -> EditorView {
        if key.is_quit() {
            EditorView { should_quit: true, ..self }.scrolled()
        } else if key.is_motion() {
            self.moved(key).scrolled()
        } else {
            self.scrolled()
        }
    }

    /// What row `r` of the text area shows: the line of the document that
    /// the window has there, cut to the columns of the window; below the
    /// text a tilde; and in place of one tilde, a third of the way down, the
    /// welcome message where the document is empty.
    pub open spec fn row_text(self, r: int) -> Seq<char> {
        let y = self.offset.y + r;
        if 0 <= y < self.rows.len() {
            clip(self.rows[y], self.offset.x, self.offset.x + self.size.width)
        } else if self.rows.len() == 0 && r == self.size.height / 3 {
            welcome_message(self.size.width as int)
        } else {
            seq!['~']
        }
    }

    /// What the rows of the text area show, from the top.
    pub open spec fn screen(self) -> Seq<Seq<char>> {
        Seq::new(self.size.height as nat, |r: int| self.row_text(r))
    }

    /// Where on the screen the cursor stands: as far from the top left cell
    /// as it is from the offset in the document.
    pub open spec fn screen_cursor(self) -> Point {
        Point {
            x: if self.cursor.x > self.offset.x { self.cursor.x - self.offset.x } else { 0 },
            y: if self.cursor.y > self.offset.y { self.cursor.y - self.offset.y } else { 0 },
        }
    }

    /// What the editor shows: a farewell once the session has ended, and
    /// until then the rows of the text area, a blank status bar as wide as
    /// the text area, and the cursor.
    pub open spec fn frame(self) -> FrameView {
        if self.should_quit {
            FrameView::Farewell { message: "Goodbye."@ }
        } else {
            FrameView::Screen {
                rows: self.screen(),
                status_bar: blank(self.size.width as int),
                cursor: self.screen_cursor(),
            }
        }
    }

    /// The editor after a session over `keys`: it takes them one by one, and
    /// none after the one that ends the session.
    pub open spec fn after(self, keys: Seq<Key>) -> EditorView
        decreases keys.len(),
    {
        if self.should_quit || keys.len() == 0 {
            self
        } else {
            self.pressed(keys[0]).after(keys.drop_first())
        }
    }

    /// The frames of a session over `keys`: what the editor shows at first,
    /// and after each key that it takes.
    pub open spec fn frames(self, keys: Seq<Key>) -> Seq<FrameView>
        decreases keys.len(),
    {
        if self.should_quit || keys.len() == 0 {
            seq![self.frame()]
        } else {
            seq![self.frame()] + self.pressed(keys[0]).frames(keys.drop_first())
        }
    }

    /// Whether the window shows the cursor.
    pub open spec fn in_view(self) -> bool {
        &&& shows(self.cursor.x, self.offset.x, self.size.width as int)
        &&& shows(self.cursor.y, self.offset.y, self.size.height as int)
    }

    /// Whether these are the values of an editor: a `usize` counts the lines
    /// and columns of the document and those of the offset, and the cursor
    /// rests on the text.
    pub open spec fn valid(self) -> bool {
        &&& countable(self.rows)
        &&& on_text(self.rows, self.cursor)
        &&& 0 <= self.offset.x <= usize::MAX
        &&& 0 <= self.offset.y <= usize::MAX
    }

    /// A motion changes nothing but the cursor, and a key that is no motion
    /// does not move a cursor that rests on the text.
    pub proof fn moved_changes_cursor_only(self, key: Key)
        ensures
            self.moved(key) == (EditorView { cursor: self.moved(key).cursor, ..self }),
            !key.is_motion() && on_text(self.rows, self.cursor) ==> self.moved(key) == self,
    {
    }

    /// Scrolling changes nothing but the offset.
    pub proof fn scrolled_changes_offset_only(self)
        ensures
            self.scrolled() == (EditorView { offset: self.scrolled().offset, ..self }),
    {
    }

    /// No key changes the document, its text or its file name, nor the size
    /// of the text area.
    pub proof fn pressed_keeps_document(self, key: Key)
        ensures
            self.pressed(key).rows == self.rows,
            self.pressed(key).file_name == self.file_name,
            self.pressed(key).size == self.size,
    {
    }

    /// A session changes neither the document, its text or its file name,
    /// nor the size of the text area.
    pub proof fn after_keeps_document(self, keys: Seq<Key>)
        ensures
            self.after(keys).rows == self.rows,
            self.after(keys).file_name == self.file_name,
            self.after(keys).size == self.size,
        decreases keys.len(),
    {
        if !self.should_quit && keys.len() > 0 {
            self.pressed(keys[0]).after_keeps_document(keys.drop_first());
        }
    }

    /// While the window shows the cursor, Ctrl-Q ends the session and
    /// changes nothing else.
    pub proof fn quit_changes_flag_only(self)
        requires
            self.valid(),
            self.in_view(),
        ensures
            self.pressed(Key::Ctrl('q')) == (EditorView { should_quit: true, ..self }),
    {
    }

    /// Taking a key leaves the cursor on the text: on a line of the document
    /// or just below the last one, and not behind the end of its line.
    pub proof fn pressed_is_valid(self, key: Key)
        requires
            self.valid(),
        ensures
            self.pressed(key).valid(),
    {
    }

    /// A session leaves the cursor on the text, whatever its keys.
    pub proof fn after_is_valid(self, keys: Seq<Key>)
        requires
            self.valid(),
        ensures
            self.after(keys).valid(),
        decreases keys.len(),
    {
        if !self.should_quit && keys.len() > 0 {
            self.pressed_is_valid(keys[0]);
            self.pressed(keys[0]).after_is_valid(keys.drop_first());
        }
    }

    /// Once the window has followed the cursor, it shows it, if the text
    /// area has a cell at all.
    pub proof fn scrolled_shows_cursor(self)
        requires
            self.valid(),
            self.size.width >= 1,
            self.size.height >= 1,
        ensures
            self.scrolled().in_view(),
    {
    }

    /// In a text area with a cell, the window follows the cursor by the
    /// plain rule, along both axes.
    pub proof fn scrolled_is_exact(self)
        requires
            self.valid(),
            self.size.width >= 1,
            self.size.height >= 1,
        ensures
            self.scrolled().offset == (Point {
                x: follow(self.cursor.x, self.offset.x, self.size.width as int),
                y: follow(self.cursor.y, self.offset.y, self.size.height as int),
            }),
    {
    }

    /// A window that shows the cursor stays where it is.
    pub proof fn scrolled_is_stable(self)
        requires
            self.valid(),
            self.in_view(),
        ensures
            self.scrolled() == self,
    {
    }

    /// After any key the window shows the cursor, if the text area has a
    /// cell at all.
    pub proof fn pressed_shows_cursor(self, key: Key)
        requires
            self.valid(),
            self.size.width >= 1,
            self.size.height >= 1,
        ensures
            self.pressed(key).in_view(),
    {
    }

    /// A session that starts with the cursor in the window ends with the
    /// cursor in the window, if the text area has a cell at all.
    pub proof fn after_shows_cursor(self, keys: Seq<Key>)
        requires
            self.valid(),
            self.in_view(),
            self.size.width >= 1,
            self.size.height >= 1,
        ensures
            self.after(keys).in_view(),
        decreases keys.len(),
    {
        if !self.should_quit && keys.len() > 0 {
            self.pressed_is_valid(keys[0]);
            self.pressed_shows_cursor(keys[0]);
            self.pressed(keys[0]).after_shows_cursor(keys.drop_first());
        }
    }

    /// A key ends the session if and only if it is Ctrl-Q, and no key takes
    /// up an ended session again.
    pub proof fn pressed_quits_on_chord(self, key: Key)
        ensures
            self.pressed(key).should_quit == (self.should_quit || key == Key::Ctrl('q')),
    {
    }

    /// Once the session has ended, no key changes the editor.
    pub proof fn after_quit_stays(self, keys: Seq<Key>)
        requires
            self.should_quit,
        ensures
            self.after(keys) == self,
            self.frames(keys) == seq![self.frame()],
    {
    }

    /// A session ends only by Ctrl-Q: while the keys hold none, it goes on.
    pub proof fn after_goes_on(self, keys: Seq<Key>)
        requires
            !self.should_quit,
            forall|i: int| 0 <= i < keys.len() ==> !(#[trigger] keys[i]).is_quit(),
        ensures
            !self.after(keys).should_quit,
            self.frames(keys).len() == keys.len() + 1,
        decreases keys.len(),
    {
        if keys.len() > 0 {
            let rest = keys.drop_first();
            assert forall|i: int| 0 <= i < rest.len() implies !(#[trigger] rest[i]).is_quit() by {
                assert(rest[i] == keys[i + 1]);
            }
            self.pressed(keys[0]).after_goes_on(rest);
        }
    }

    /// On an empty document every row of the text area shows a tilde, but
    /// the one a third of the way down, which shows the welcome message.
    pub proof fn empty_screen_greets_once(self)
        requires
            self.rows.len() == 0,
        ensures
            self.screen().len() == self.size.height,
            forall|r: int|
                0 <= r < self.size.height ==> #[trigger] self.screen()[r] == if r
                    == self.size.height / 3 {
                    welcome_message(self.size.width as int)
                } else {
                    seq!['~']
                },
    {
    }
}

/// A viewer of one document. Its cursor always rests on the text.
pub struct Editor {
    should_quit: bool,
    terminal: Size,
    cursor_position: Position,
    offset: Position,
    document: Document,
}

impl View for Editor {
    type V = EditorView;

    closed spec fn view(&self) -> EditorView {
        EditorView {
            should_quit: self.should_quit,
            size: self.terminal,
            cursor: self.cursor_position@,
            offset: self.offset@,
            rows: self.document@,
            file_name: self.document.name(),
        }
    }
}

/// The start of a window of `extent` cells that began at `offset`, after it
/// has followed the cursor to `at`.
fn follow_axis(at: usize, offset: usize, extent: usize) -> (start: usize)
    ensures
        start == capped(follow(at as int, offset as int, extent as int)),
{
    if at < offset {
        at
    } else if at - offset >= extent {
        (at - extent).saturating_add(1)
    } else {
        offset
    }
}

impl Editor {
    #[verifier::type_invariant]
    spec fn cursor_on_text(&self) -> bool {
        on_text(self.document@, self.cursor_position@)
    }

    /// The editor for a text area of `size` cells. It shows `document`, or
    /// the empty document, which has no file name, where there is none to
    /// show, with the cursor and the window at its start.
    pub fn default(size: Size, document: Option<Document>) -> (editor: Editor)
        ensures
            editor@ == (EditorView {
                should_quit: false,
                size,
                cursor: Point { x: 0, y: 0 },
                offset: Point { x: 0, y: 0 },
                rows: match document {
                    Some(document) => document@,
                    None => Seq::empty(),
                },
                file_name: match document {
                    Some(document) => document.name(),
                    None => None,
                },
            }),
            editor@.valid(),
    {
        let document = match document {
            Some(document) => document,
            None => Document::default(),
        };
        proof {
            document.view_is_countable();
        }
        Editor {
            should_quit: false,
            terminal: size,
            cursor_position: Position::default(),
            offset: Position::default(),
            document,
        }
    }

    /// Whether the session has ended.
    pub fn should_quit(&self) -> (b: bool)
        ensures
            b == self@.should_quit,
    {
        self.should_quit
    }

    /// The size of the text area.
    pub fn size(&self) -> (size: Size)
        ensures
            size == self@.size,
    {
        self.terminal
    }

    /// Where the cursor is in the document.
    pub fn cursor_position(&self) -> (position: Position)
        ensures
            position@ == self@.cursor,
            self@.valid(),
    {
        proof {
            use_type_invariant(self);
            self.document.view_is_countable();
        }
        self.cursor_position
    }

    /// The place of the document that the top left cell of the window shows.
    pub fn offset(&self) -> (position: Position)
        ensures
            position@ == self@.offset,
    {
        self.offset
    }

    /// The document.
    pub fn document(&self) -> (document: &Document)
        ensures
            document@ == self@.rows,
            document.name() == self@.file_name,
    {
        &self.document
    }

    /// The width of line `y` of the document: zero where there is no such
    /// line.
    fn width(&self, y: usize) -> (width: usize)
        ensures
            width == width_at(self@.rows, y as int),
    {
        match self.document.row(y) {
            Some(row) => row.len(),
            None => 0,
        }
    }

    /// Runs a session over `keys`: shows a frame, takes a key, and so on
    /// until a key ends the session or none is left. Returns the frames in
    /// the order in which they were shown.
    pub fn run(&mut self, keys: &[Key]) -> (frames: Vec<Frame>)
        ensures
            final(self)@ == old(self)@.after(keys@),
            views(frames@) == old(self)@.frames(keys@),
            final(self)@.rows == old(self)@.rows,
            final(self)@.file_name == old(self)@.file_name,
            final(self)@.size == old(self)@.size,
            final(self)@.valid(),
            old(self)@.in_view() && old(self)@.size.width >= 1 && old(self)@.size.height >= 1
                ==> final(self)@.in_view(),
    {
        proof {
            use_type_invariant(&*self);
            self.document.view_is_countable();
        }
        let ghost start = self@;
        proof {
            start.after_keeps_document(keys@);
        }
        let mut frames: Vec<Frame> = Vec::new();
        frames.push(self.refresh_screen());
        let mut taken: usize = 0;
        proof {
            assert(keys@.skip(0) =~= keys@);
            assert(views(frames@).drop_last() + self@.frames(keys@) =~= self@.frames(keys@));
        }
        while taken < keys.len() && !self.should_quit
            invariant
                taken <= keys@.len(),
                self@.valid(),
                self@.size == start.size,
                start.in_view() && start.size.width >= 1 && start.size.height >= 1
                    ==> self@.in_view(),
                frames@.len() > 0,
                frames@.last()@ == self@.frame(),
                start.after(keys@) == self@.after(keys@.skip(taken as int)),
                start.frames(keys@) == views(frames@).drop_last() + self@.frames(
                    keys@.skip(taken as int),
                ),
            decreases keys@.len() - taken,
        {
            let ghost before = self@;
            let ghost shown = views(frames@);
            let ghost rest = keys@.skip(taken as int);
            assert(rest.drop_first() =~= keys@.skip(taken as int + 1));
            self.process_keypress(keys[taken]);
            taken += 1;
            frames.push(self.refresh_screen());
            assert(views(frames@).drop_last() =~= shown.drop_last() + seq![before.frame()]);
            assert(start.frames(keys@) =~= views(frames@).drop_last() + self@.frames(
                keys@.skip(taken as int),
            ));
        }
        assert(views(frames@) =~= views(frames@).drop_last() + seq![self@.frame()]);
        frames
    }

    /// Takes one key: Ctrl-Q ends the session, a motion key moves the cursor,
    /// any other key does nothing. Then the window follows the cursor.
    pub fn process_keypress(&mut self, pressed_key: Key)
        ensures
            final(self)@ == old(self)@.pressed(pressed_key),
            final(self)@.valid(),
            old(self)@.size.width >= 1 && old(self)@.size.height >= 1 ==> final(self)@.in_view(),
    {
        proof {
            use_type_invariant(&*self);
            self.document.view_is_countable();
        }
        match pressed_key {
            Key::Ctrl('q') => self.should_quit = true,
            Key::Up
            | Key::Left
            | Key::Down
            | Key::Right
            | Key::PageUp
            | Key::PageDown
            | Key::End
            | Key::Home => self.move_cursor(pressed_key),
            _ => (),
        }
        self.scroll();
    }

    /// What the editor shows now.
    pub fn refresh_screen(&self) -> (frame: Frame)
        ensures
            frame@ == self@.frame(),
    {
        if self.should_quit {
            Frame::Farewell { message: String::from_str("Goodbye.") }
        } else {
            let rows = self.draw_rows();
            let status_bar = self.draw_status_bar();
            Frame::Screen {
                rows,
                status_bar,
                cursor: Position {
                    x: self.cursor_position.x.saturating_sub(self.offset.x),
                    y: self.cursor_position.y.saturating_sub(self.offset.y),
                },
            }
        }
    }

    /// The text of the status bar.
    pub fn draw_status_bar(&self) -> (text: String)
        ensures
            text@ == blank(self@.size.width as int),
    {
        spaces(self.terminal.width as usize)
    }

    /// The line that greets the reader of an empty document.
    pub fn draw_welcome_message(&self) -> (text: String)
        ensures
            text@ == welcome_message(self@.size.width as int),
    {
        let mut welcome_message = String::from_str("Hecto editor -- version ");
        welcome_message.append(VERSION);
        proof {
            reveal_strlit("Hecto editor -- version ");
            reveal_strlit("0.1.0");
            reveal_strlit("~");
        }
        let width = self.terminal.width as usize;
        let len = welcome_message.as_str().unicode_len();
        let padding = width.saturating_sub(len) / 2;
        let indent = padding.saturating_sub(1);
        let mut line = String::from_str("~");
        line.append(spaces(indent).as_str());
        line.append(welcome_message.as_str());
        let total = 1 + indent + len;
        let keep = if width < total {
            width
        } else {
            total
        };
        String::from_str(line.as_str().substring_char(0, keep))
    }

    /// The columns of `row` that the window shows.
    pub fn draw_row(&self, row: &Row) -> (text: String)
        ensures
            text@ == clip(
                row@,
                self@.offset.x,
                self@.offset.x + self@.size.width,
            ),
    {
        let start = self.offset.x;
        let width = self.terminal.width as usize;
        let end = start.saturating_add(width);
        proof {
            row.len_fits();
        }
        row.render(start, end)
    }

    /// What the rows of the text area show, from the top.
    pub fn draw_rows(&self) -> (rows: Vec<String>)
        ensures
            texts(rows@) == self@.screen(),
    {
        let height = self.terminal.height;
        let mut rows: Vec<String> = Vec::new();
        let mut terminal_row: u16 = 0;
        while terminal_row < height
            invariant
                height == self@.size.height,
                terminal_row <= height,
                rows@.len() == terminal_row,
                forall|r: int| 0 <= r < terminal_row ==> (#[trigger] rows@[r])@ == self@.row_text(r),
            decreases height - terminal_row,
        {
            let row = match (terminal_row as usize).checked_add(self.offset.y) {
                Some(index) => self.document.row(index),
                None => None,
            };
            let text = if let Some(row) = row {
                self.draw_row(row)
            } else if terminal_row == height / 3 && self.document.is_empty() {
                self.draw_welcome_message()
            } else {
                String::from_str("~")
            };
            proof {
                reveal_strlit("~");
                self.document.view_is_countable();
            }
            assert(text@ == self@.row_text(terminal_row as int));
            rows.push(text);
            terminal_row += 1;
        }
        assert(texts(rows@) =~= self@.screen());
        rows
    }

    /// Moves the window as far as it must to show the cursor.
    pub fn scroll(&mut self)
        ensures
            final(self)@ == old(self)@.scrolled(),
            final(self)@.valid(),
            old(self)@.size.width >= 1 && old(self)@.size.height >= 1 ==> final(self)@.in_view(),
    {
        proof {
            use_type_invariant(&*self);
            self.document.view_is_countable();
        }
        let Position { x, y } = self.cursor_position;
        let width = self.terminal.width as usize;
        let height = self.terminal.height as usize;
        self.offset.y = follow_axis(y, self.offset.y, height);
        self.offset.x = follow_axis(x, self.offset.x, width);
    }

    /// Moves the cursor as `key` says, and keeps it on the text.
    pub fn move_cursor(&mut self, key: Key)
        ensures
            final(self)@ == old(self)@.moved(key),
            final(self)@.valid(),
    {
        proof {
            use_type_invariant(&*self);
            self.document.view_is_countable();
        }
        let Position { mut x, mut y } = self.cursor_position;
        let terminal_size = self.terminal.height as usize;
        let height = self.document.len();
        let mut width = self.width(y);
        match key {
            Key::Right => {
                if x < width {
                    x += 1;
                } else if y < height {
                    y += 1;
                    x = 0;
                }
            },
            Key::Left => {
                if x > 0 {
                    x -= 1;
                } else if y > 0 {
                    y -= 1;
                    x = self.width(y);
                }
            },
            Key::Down => {
                if y < height {
                    y = y.saturating_add(1);
                }
            },
            Key::Up => y = y.saturating_sub(1),
            Key::PageUp => {
                y = if y > terminal_size {
                    y - terminal_size
                } else {
                    0
                };
            },
            Key::PageDown => {
                y = if y.saturating_add(terminal_size) < height {
                    y + terminal_size
                } else {
                    height
                }
            },
            Key::Home => x = 0,
            Key::End => x = width,
            _ => (),
        }
        width = self.width(y);
        if x > width {
            x = width;
        }
        self.cursor_position = Position { x, y };
    }
}

} // verus!
