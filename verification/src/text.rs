//! Strings built character by character.

use vstd::prelude::*;

verus! {

/// `std::string::String::push` appends the one character to the string.
pub assume_specification[ String::push ](string: &mut String, ch: char)
    ensures
        final(string)@ == old(string)@.push(ch),
;

/// A run of `n` spaces.
pub open spec fn blank(n: int) -> Seq<char> {
    Seq::new(n as nat, |i: int| ' ')
}

/// A string of `n` spaces.
pub fn spaces(n: usize) -> (text: String)
    ensures
        text@ == blank(n as int),
{
    let mut text = String::new();
    let mut i: usize = 0;
    while i < n
        invariant
            i <= n,
            text@ == blank(i as int),
        decreases n - i,
    {
        text.push(' ');
        i += 1;
        assert(text@ =~= blank(i as int));
    }
    text
}

} // verus!
