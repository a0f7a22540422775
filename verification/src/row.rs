//! One line of text, addressed by column.

use vstd::prelude::*;

verus! {

/// The part of `content` that lies in the columns `[start, end)`.
///
/// `end` is first brought down to the length of `content`, then `start` down
/// to `end`: a range that starts behind the text, or ends before it starts,
/// is empty.
pub open spec fn clip(content: Seq<char>, start: int, end: int) -> Seq<char>
    recommends
        0 <= start,
        0 <= end,
{
    let end = if end < content.len() { end } else { content.len() as int };
    let start = if start < end { start } else { end };
    content.subrange(start, end)
}

/// Whatever the range, its columns are columns of the content: `clip` gives
/// the columns from `start` on, as many as the range and the content have,
/// and none where the range starts behind the content or ends before it
/// starts.
pub proof fn clip_is_within(content: Seq<char>, start: int, end: int)
    requires
        0 <= start,
        0 <= end,
    ensures
        clip(content, start, end).len() <= content.len(),
        start <= end ==> clip(content, start, end).len() <= end - start,
        start >= content.len() || end <= start ==> clip(content, start, end).len() == 0,
        start + clip(content, start, end).len() <= content.len() || clip(
            content,
            start,
            end,
        ).len() == 0,
        forall|i: int|
            0 <= i < clip(content, start, end).len() ==> clip(content, start, end)[i]
                == content[start + i],
{
}

/// A line of the document. Its view is its text, one `char` per column.
pub struct Row {
    string: String,
    len: usize,
}

impl View for Row {
    type V = Seq<char>;

    closed spec fn view(&self) -> Seq<char> {
        Seq::new(self.len as nat, |i: int| self.string@[i])
    }
}

impl Row {
    #[verifier::type_invariant]
    spec fn len_is_cached(&self) -> bool {
        self.len == self.string@.len()
    }

    /// A `usize` counts the columns of a row.
    pub proof fn len_fits(&self)
        ensures
            self@.len() <= usize::MAX,
    {
    }

    /// The columns `[start, end)` of the row, clipped to its text.
    pub fn render(&self, start: usize, end: usize) -> (text: String)
        ensures
            text@ == clip(self@, start as int, end as int),
    {
        proof {
            use_type_invariant(self);
            assert(self@ =~= self.string@);
        }
        let end = if end < self.len { end } else { self.len };
        let start = if start < end { start } else { end };
        String::from_str(self.string.as_str().substring_char(start, end))
    }

    /// The number of columns of the row.
    pub fn len(&self) -> (n: usize)
        ensures
            n == self@.len(),
    {
        proof {
            use_type_invariant(self);
        }
        self.len
    }

    /// Whether the row has no column.
    pub fn is_empty(&self) -> (b: bool)
        ensures
            b == (self@.len() == 0),
    {
        proof {
            use_type_invariant(self);
        }
        self.len == 0
    }

    /// The text of the row.
    pub fn as_str(&self) -> (text: &str)
        ensures
            text@ == self@,
    {
        proof {
            use_type_invariant(self);
            assert(self@ =~= self.string@);
        }
        self.string.as_str()
    }
}

impl From<&str> for Row {
    /// The row that holds the text of `slice`.
    fn from(slice: &str) -> (row: Row)
        ensures
            row@ == slice@,
    {
        let len = slice.unicode_len();
        let row = Row { string: String::from_str(slice), len };
        assert(row@ =~= slice@);
        row
    }
}

/// Two rows with the same text need not be the same value, so `from` is
/// specified through the view of its result and not through `from_spec`.
impl vstd::std_specs::convert::FromSpecImpl<&str> for Row {
    open spec fn obeys_from_spec() -> bool {
        false
    }

    open spec fn from_spec(slice: &str) -> Row {
        arbitrary()
    }
}

} // verus!
