use unicode_width::UnicodeWidthChar;
use vstd::prelude::*;

verus! {

/// The number of terminal columns that the Unicode width tables give to a
/// character, or `None` for a control character.
pub uninterp spec fn unicode_width(c: char) -> Option<usize>;

/// The number of terminal columns a character takes on screen: what the
/// Unicode tables say, and nothing for a control character.
pub open spec fn display_width(c: char) -> nat {
    match unicode_width(c) {
        Some(w) => w as nat,
        None => 0,
    }
}

/// Calls `unicode_width::UnicodeWidthChar::width`. The result is a function
/// of the character alone; its tables pack a width into two bits, so it is
/// never above three.
#[verifier::external_body]
fn table_width(c: char) -> (w: Option<usize>)
    ensures
        w == unicode_width(c),
        w matches Some(n) ==> n <= 3,
{
    UnicodeWidthChar::width(c)
}

/// Display width of one character, in columns.
pub fn char_width(c: char) -> (w: usize)
    ensures
        w == display_width(c),
        w <= 3,
{
    match table_width(c) {
        Some(n) => n,
        None => 0,
    }
}

} // verus!
