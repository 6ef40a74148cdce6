//! Small operations on text, counted in characters.

use vstd::prelude::*;
use vstd::string::{StrSliceExecFns, StringExecFns};

verus! {

/// Whether `i` is the position of the first `needle` in `s`.
pub open spec fn is_first_index(s: Seq<char>, needle: char, i: int) -> bool {
    &&& 0 <= i < s.len()
    &&& s[i] == needle
    &&& forall|j: int| 0 <= j < i ==> s[j] != needle
}

/// Finds the first `needle` in `text`.
pub fn find_char(text: &str, needle: char) -> (r: Option<usize>)
    ensures
        match r {
            Some(i) => is_first_index(text@, needle, i as int),
            None => forall|j: int| 0 <= j < text@.len() ==> text@[j] != needle,
        },
{
    let length = text.unicode_len();
    let mut index: usize = 0;
    for c in it: text.chars()
        invariant
            it.seq() == text@,
            index == it.index(),
            length == text@.len(),
            forall|j: int| 0 <= j < index ==> text@[j] != needle,
    {
        if c == needle {
            return Some(index);
        }
        index += 1;
    }
    None
}

/// Whether two texts hold the same characters.
pub fn text_equals(a: &str, b: &str) -> (r: bool)
    ensures
        r == (a@ == b@),
{
    String::from_str(a) == String::from_str(b)
}

} // verus!
