//! The text of a file as a sequence of rows.

use crate::motion::countable;
use crate::row::Row;
use vstd::prelude::*;

verus! {

/// The number of columns before the first line feed of `text`: its whole
/// length where it holds none.
pub open spec fn first_break(text: Seq<char>) -> nat
    decreases text.len(),
{
    if text.len() == 0 || text[0] == '\n' {
        0
    } else {
        1 + first_break(text.drop_first())
    }
}

/// `line` without the carriage return that ends it, if one does.
pub open spec fn without_return(line: Seq<char>) -> Seq<char> {
    if line.len() > 0 && line.last() == '\r' {
        line.drop_last()
    } else {
        line
    }
}

/// The lines of `text`.
///
/// A line ends at a line feed, or at a carriage return directly followed by
/// one; neither belongs to the line. What follows the last line feed is a line
/// too, unless it is empty. A carriage return that no line feed follows stays
/// in its line.
pub open spec fn lines(text: Seq<char>) -> Seq<Seq<char>>
    decreases text.len(),
{
    let n = first_break(text);
    if text.len() == 0 {
        Seq::empty()
    } else if n >= text.len() {
        seq![text]
    } else {
        seq![without_return(text.take(n as int))] + lines(text.skip(n as int + 1))
    }
}

/// Whether `text` holds no line feed.
pub open spec fn unbroken(text: Seq<char>) -> bool {
    forall|i: int| 0 <= i < text.len() ==> text[i] != '\n'
}

/// The first line feed of a text stands where `first_break` says, and none
/// before it.
proof fn lemma_first_break(text: Seq<char>)
    ensures
        first_break(text) <= text.len(),
        unbroken(text.take(first_break(text) as int)),
        first_break(text) < text.len() ==> text[first_break(text) as int] == '\n',
    decreases text.len(),
{
    if text.len() > 0 && text[0] != '\n' {
        let rest = text.drop_first();
        lemma_first_break(rest);
        let n = first_break(rest) as int;
        let head = text.take(n + 1);
        assert forall|i: int| 0 <= i < head.len() implies #[trigger] head[i] != '\n' by {
            if i > 0 {
                assert(head[i] == rest.take(n)[i - 1]);
            }
        }
    }
}

/// No line holds a line feed.
pub proof fn lines_are_unbroken(text: Seq<char>)
    ensures
        forall|i: int| 0 <= i < lines(text).len() ==> unbroken(#[trigger] lines(text)[i]),
    decreases text.len(),
{
    let n = first_break(text) as int;
    lemma_first_break(text);
    if text.len() == 0 {
    } else if n >= text.len() {
        assert(text.take(n) =~= text);
    } else {
        let rest = text.skip(n + 1);
        lines_are_unbroken(rest);
        assert forall|i: int| 0 <= i < lines(text).len() implies unbroken(
            #[trigger] lines(text)[i],
        ) by {
            if i > 0 {
                assert(lines(text)[i] == lines(rest)[i - 1]);
            }
        }
    }
}

/// Behind a part without a line feed, the first line feed of a text is the
/// first one of what follows that part.
proof fn lemma_first_break_after(head: Seq<char>, tail: Seq<char>)
    requires
        unbroken(head),
    ensures
        first_break(head + tail) == head.len() + first_break(tail),
    decreases head.len(),
{
    if head.len() == 0 {
        assert(head + tail =~= tail);
    } else {
        assert(head[0] != '\n');
        assert((head + tail)[0] == head[0]);
        assert((head + tail).drop_first() =~= head.drop_first() + tail);
        lemma_first_break_after(head.drop_first(), tail);
    }
}

/// A text without a line feed is one line, or none where it is empty.
proof fn lemma_lines_unbroken(text: Seq<char>)
    requires
        unbroken(text),
    ensures
        lines(text) == if text.len() == 0 {
            Seq::<Seq<char>>::empty()
        } else {
            seq![text]
        },
{
    lemma_first_break_after(text, Seq::empty());
    assert(text + Seq::<char>::empty() =~= text);
}

/// The first line of a text ends at its first line feed, and the other lines
/// are those of what follows it.
proof fn lemma_lines_broken(head: Seq<char>, tail: Seq<char>)
    requires
        unbroken(head),
    ensures
        lines(head + seq!['\n'] + tail) == seq![without_return(head)] + lines(tail),
{
    let text = head + seq!['\n'] + tail;
    assert(text =~= head + (seq!['\n'] + tail));
    lemma_first_break_after(head, seq!['\n'] + tail);
    assert(first_break(text) == head.len());
    assert(text.take(head.len() as int) =~= head);
    assert(text.skip(head.len() as int + 1) =~= tail);
}

/// The texts of `rows`, in their order.
spec fn texts(rows: Seq<Row>) -> Seq<Seq<char>> {
    Seq::new(rows.len(), |i: int| rows[i]@)
}

/// What has been read of a line: `line`, and behind it the carriage return
/// that is held back, if one is.
spec fn pending(line: Seq<char>, held: bool) -> Seq<char> {
    if held {
        line.push('\r')
    } else {
        line
    }
}

/// The text of a file, line by line. Its view is the text of its rows, first
/// line first.
pub struct Document {
    rows: Vec<Row>,
    file_name: Option<String>,
}

impl View for Document {
    type V = Seq<Seq<char>>;

    closed spec fn view(&self) -> Seq<Seq<char>> {
        texts(self.rows@)
    }
}

impl Default for Document {
    /// The document without a row and without a file.
    fn default() -> (document: Document)
        ensures
            document@ == Seq::<Seq<char>>::empty(),
            document.name() is None,
    {
        let document = Document { rows: Vec::new(), file_name: None };
        assert(document@ =~= Seq::<Seq<char>>::empty());
        document
    }
}

impl Document {
    /// The name of the file that the text was read from, where it was read
    /// from one.
    pub closed spec fn name(&self) -> Option<Seq<char>> {
        match self.file_name {
            Some(name) => Some(name@),
            None => None,
        }
    }

    /// The document of the file `filename`, whose text is `contents`: one row
    /// for each line of the text, in the order of the file.
    pub fn open(filename: &str, contents: &str) -> (document: Document)
        ensures
            document@ == lines(contents@),
            document.name() == Some(filename@),
    {
        let mut rows: Vec<Row> = Vec::new();
        let mut line = String::new();
        // A carriage return is held back until the next character shows
        // whether it ends the line.
        let mut held = false;
        let ghost text = contents@;
        proof {
            assert(texts(rows@) + lines(text) =~= lines(text));
            assert(pending(line@, held) + text.skip(0) =~= text);
        }
        for c in it: contents.chars()
            invariant
                it.seq() == text,
                unbroken(line@),
                !held ==> line@.len() == 0 || line@.last() != '\r',
                lines(text) == texts(rows@) + lines(
                    pending(line@, held) + text.skip(it.index() as int),
                ),
        {
            let ghost done = texts(rows@);
            let ghost read = pending(line@, held);
            let ghost rest = text.skip(it.index() as int);
            let ghost after = text.skip(it.index() as int + 1);
            assert(rest =~= seq![c] + after);
            if c == '\n' {
                proof {
                    assert(read + rest =~= read + seq!['\n'] + after);
                    lemma_lines_broken(read, after);
                    assert(without_return(read) =~= line@);
                }
                rows.push(Row::from(line.as_str()));
                line = String::new();
                held = false;
                proof {
                    assert(texts(rows@) =~= done + seq![without_return(read)]);
                    assert(pending(line@, held) + after =~= after);
                }
            } else {
                if held {
                    line.push('\r');
                }
                if c == '\r' {
                    held = true;
                } else {
                    line.push(c);
                    held = false;
                }
                proof {
                    assert(pending(line@, held) + after =~= read + rest);
                }
            }
        }
        let ghost done = texts(rows@);
        let ghost read = pending(line@, held);
        proof {
            assert(text.skip(text.len() as int) =~= Seq::<char>::empty());
            assert(read + Seq::<char>::empty() =~= read);
        }
        if held {
            line.push('\r');
        }
        proof {
            assert(line@ =~= read);
            lemma_lines_unbroken(line@);
        }
        if !line.as_str().is_empty() {
            rows.push(Row::from(line.as_str()));
            assert(texts(rows@) =~= done + seq![line@]);
        } else {
            assert(done + Seq::<Seq<char>>::empty() =~= done);
        }
        Document { rows, file_name: Some(String::from_str(filename)) }
    }

    /// A `usize` counts the rows of a document and the columns of each.
    pub proof fn view_is_countable(&self)
        ensures
            countable(self@),
    {
        assert(self.rows.len() == self@.len());
        assert forall|y: int| 0 <= y < self@.len() implies (#[trigger] self@[y]).len()
            <= usize::MAX by {
            self.rows@[y].len_fits();
        }
    }

    /// The name of the file that the text was read from, where it was read
    /// from one.
    pub fn file_name(&self) -> (name: Option<&str>)
        ensures
            match name {
                Some(name) => self.name() == Some(name@),
                None => self.name() is None,
            },
    {
        match &self.file_name {
            Some(name) => Some(name.as_str()),
            None => None,
        }
    }

    /// The row at `index`, where the document has one.
    pub fn row(&self, index: usize) -> (row: Option<&Row>)
        ensures
            row is Some <==> index < self@.len(),
            row matches Some(r) ==> r@ == self@[index as int],
    {
        if index < self.rows.len() {
            Some(&self.rows[index])
        } else {
            None
        }
    }

    /// Whether the document has no row.
    pub fn is_empty(&self) -> (b: bool)
        ensures
            b == (self@.len() == 0),
    {
        self.rows.len() == 0
    }

    /// The number of rows.
    pub fn len(&self) -> (n: usize)
        ensures
            n == self@.len(),
    {
        self.rows.len()
    }
}

} // verus!
