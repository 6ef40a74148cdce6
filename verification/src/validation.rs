//! Syntax checks for caller-supplied dates and years.

use vstd::prelude::*;
use vstd::string::StrSliceExecFns;

verus! {

/// Whether `c` is one of the ten ASCII digits.
pub open spec fn is_ascii_digit(c: char) -> bool {
    '0' <= c && c <= '9'
}

/// What position `i` of a date must hold: a dash at 4 and 7, a digit elsewhere.
pub open spec fn date_position_ok(i: int, c: char) -> bool {
    if i == 4 || i == 7 {
        c == '-'
    } else {
        is_ascii_digit(c)
    }
}

/// The shape `YYYY-MM-DD`: ten characters, digits around two dashes.
/// Month and day are not range-checked.
pub open spec fn is_date_shape(s: Seq<char>) -> bool {
    &&& s.len() == 10
    &&& forall|i: int| 0 <= i < 10 ==> date_position_ok(i, #[trigger] s[i])
}

/// The shape `YYYY`: exactly four ASCII digits.
pub open spec fn is_year_shape(s: Seq<char>) -> bool {
    &&& s.len() == 4
    &&& forall|i: int| 0 <= i < 4 ==> is_ascii_digit(#[trigger] s[i])
}

/// Executable form of [`is_ascii_digit`].
pub fn char_is_ascii_digit(c: char) -> (b: bool)
    ensures
        b == is_ascii_digit(c),
{
    '0' <= c && c <= '9'
}

/// Checks that `date` has the shape `YYYY-MM-DD`.
pub fn validate_date_string(date: &str) -> (ok: bool)
    ensures
        ok == is_date_shape(date@),
{
    if date.unicode_len() != 10 {
        return false;
    }
    let mut index: usize = 0;
    while index < 10
        invariant
            index <= 10,
            date@.len() == 10,
            forall|i: int| 0 <= i < index ==> date_position_ok(i, #[trigger] date@[i]),
        decreases 10 - index,
    {
        let c = date.get_char(index);
        if index == 4 || index == 7 {
            if c != '-' {
                assert(!date_position_ok(index as int, date@[index as int]));
                return false;
            }
        } else if !char_is_ascii_digit(c) {
            assert(!date_position_ok(index as int, date@[index as int]));
            return false;
        }
        index += 1;
    }
    true
}

/// Checks that `year` has the shape `YYYY`.
pub fn validate_year_string(year: &str) -> (ok: bool)
    ensures
        ok == is_year_shape(year@),
{
    if year.unicode_len() != 4 {
        return false;
    }
    let mut index: usize = 0;
    while index < 4
        invariant
            index <= 4,
            year@.len() == 4,
            forall|i: int| 0 <= i < index ==> is_ascii_digit(#[trigger] year@[i]),
        decreases 4 - index,
    {
        let c = year.get_char(index);
        if !char_is_ascii_digit(c) {
            assert(!is_ascii_digit(year@[index as int]));
            return false;
        }
        index += 1;
    }
    true
}

} // verus!
