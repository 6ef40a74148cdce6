//! Integer literals as JSON writes them: an optional minus sign, then either
//! a single zero or digits that do not start with zero.

use crate::validation::{char_is_ascii_digit, is_ascii_digit};
use vstd::prelude::*;
use vstd::string::StringExecFns;

verus! {

/// The number that the digit `c` stands for; zero for any other character.
pub open spec fn digit_value(c: char) -> nat {
    if is_ascii_digit(c) {
        (c as u32 - '0' as u32) as nat
    } else {
        0
    }
}

/// The number that the digits `s` spell, most significant first.
pub open spec fn digits_value(s: Seq<char>) -> nat
    decreases s.len(),
{
    if s.len() == 0 {
        0
    } else {
        digits_value(s.drop_last()) * 10 + digit_value(s.last())
    }
}

/// One or more ASCII digits.
pub open spec fn is_digits(s: Seq<char>) -> bool {
    &&& s.len() > 0
    &&& forall|i: int| 0 <= i < s.len() ==> is_ascii_digit(#[trigger] s[i])
}

/// Digits without a superfluous leading zero.
pub open spec fn is_natural_literal(s: Seq<char>) -> bool {
    &&& is_digits(s)
    &&& (s.len() == 1 || s[0] != '0')
}

/// Whether `s` starts with a minus sign.
pub open spec fn has_sign(s: Seq<char>) -> bool {
    s.len() > 0 && s[0] == '-'
}

/// The digits of `s`: all of it but a leading minus sign.
pub open spec fn magnitude_digits(s: Seq<char>) -> Seq<char> {
    if has_sign(s) {
        s.drop_first()
    } else {
        s
    }
}

/// An integer literal: an optional minus sign before a natural literal.
pub open spec fn is_integer_literal(s: Seq<char>) -> bool {
    is_natural_literal(magnitude_digits(s))
}

/// The number that the integer literal `s` spells.
pub open spec fn literal_value(s: Seq<char>) -> int {
    if has_sign(s) {
        -(digits_value(magnitude_digits(s)) as int)
    } else {
        digits_value(magnitude_digits(s)) as int
    }
}

/// What `s` reads as: its value where it is an integer literal within the
/// range of `i64`, nothing otherwise.
pub open spec fn integer_reading(s: Seq<char>) -> Option<i64> {
    if is_integer_literal(s) && i64::MIN <= literal_value(s) <= i64::MAX {
        Some(literal_value(s) as i64)
    } else {
        None
    }
}

/// Appending a digit multiplies by ten and adds it.
pub proof fn lemma_digits_value_push(s: Seq<char>, c: char)
    ensures
        digits_value(s.push(c)) == digits_value(s) * 10 + digit_value(c),
{
    assert(s.push(c).drop_last() =~= s);
}

/// A prefix spells no more than the whole.
pub proof fn lemma_digits_value_prefix(s: Seq<char>, k: int)
    requires
        0 <= k <= s.len(),
    ensures
        digits_value(s.take(k)) <= digits_value(s),
    decreases s.len() - k,
{
    if k == s.len() {
        assert(s.take(k) =~= s);
    } else {
        lemma_digits_value_prefix(s.drop_last(), k);
        assert(s.drop_last().take(k) =~= s.take(k));
    }
}

/// Reads `text` as an integer literal within the range of `i64`.
pub fn parse_integer(text: &str) -> (r: Option<i64>)
    ensures
        r == integer_reading(text@),
{
    let ghost s = text@;
    let mut negative = false;
    let mut at_start = true;
    let mut seen_digit = false;
    let mut leading_zero = false;
    let mut magnitude: u128 = 0;
    for c in it: text.chars()
        invariant
            it.seq() == s,
            s == text@,
            at_start <==> it.index() == 0,
            negative <==> (it.index() > 0 && s[0] == '-'),
            negative ==> has_sign(s),
            it.index() > 0 && !negative ==> !has_sign(s),
            forall|j: int|
                (if negative { 1int } else { 0 }) <= j < it.index() ==> is_ascii_digit(
                    #[trigger] s[j],
                ),
            seen_digit <==> it.index() > (if negative { 1int } else { 0 }),
            leading_zero <==> (seen_digit && s[if negative { 1int } else { 0 }] == '0'),
            leading_zero ==> it.index() == (if negative { 1int } else { 0 }) + 1,
            magnitude == digits_value(s.subrange(if negative { 1int } else { 0 }, it.index())),
            magnitude <= 0x8000_0000_0000_0000,
    {
        let ghost k = it.index();
        let ghost start = if negative { 1int } else { 0 };
        if at_start && c == '-' {
            negative = true;
            at_start = false;
            assert(s.subrange(1, 1) =~= Seq::<char>::empty());
        } else {
            at_start = false;
            let ghost digits = magnitude_digits(s);
            assert(digits =~= s.subrange(start, s.len() as int));
            if !char_is_ascii_digit(c) {
                assert(!is_ascii_digit(digits[k - start]));
                return None;
            }
            if leading_zero {
                assert(digits[0] == '0' && digits.len() > 1);
                return None;
            }
            if !seen_digit && c == '0' {
                leading_zero = true;
            }
            seen_digit = true;
            let digit: u128 = (c as u32 - '0' as u32) as u128;
            magnitude = magnitude * 10 + digit;
            proof {
                assert(s.subrange(start, k + 1) =~= s.subrange(start, k).push(c));
                lemma_digits_value_push(s.subrange(start, k), c);
            }
            if magnitude > 0x8000_0000_0000_0000 {
                proof {
                    lemma_digits_value_prefix(digits, k + 1 - start);
                    assert(digits.take(k + 1 - start) =~= s.subrange(start, k + 1));
                }
                return None;
            }
        }
    }
    let ghost start = if negative { 1int } else { 0 };
    let ghost digits = magnitude_digits(s);
    proof {
        assert(digits =~= s.subrange(start, s.len() as int));
    }
    if !seen_digit {
        return None;
    }
    assert(is_integer_literal(s));
    if negative {
        Some((-(magnitude as i128)) as i64)
    } else if magnitude > 0x7FFF_FFFF_FFFF_FFFF {
        None
    } else {
        Some(magnitude as i64)
    }
}

/// The character for the digit `d`.
pub open spec fn digit_char(d: nat) -> char {
    if d == 0 {
        '0'
    } else if d == 1 {
        '1'
    } else if d == 2 {
        '2'
    } else if d == 3 {
        '3'
    } else if d == 4 {
        '4'
    } else if d == 5 {
        '5'
    } else if d == 6 {
        '6'
    } else if d == 7 {
        '7'
    } else if d == 8 {
        '8'
    } else {
        '9'
    }
}

/// The decimal digits of `n`, most significant first, without leading zeros.
pub open spec fn natural_text(n: nat) -> Seq<char>
    decreases n,
{
    if n < 10 {
        seq![digit_char(n)]
    } else {
        natural_text(n / 10).push(digit_char(n % 10))
    }
}

/// The integer literal that spells `v`.
pub open spec fn integer_text(v: int) -> Seq<char> {
    if v < 0 {
        seq!['-'] + natural_text((-v) as nat)
    } else {
        natural_text(v as nat)
    }
}

/// The digit `d` as a string of one character.
fn digit_str(d: u64) -> (s: &'static str)
    requires
        d < 10,
    ensures
        s@ == seq![digit_char(d as nat)],
{
    proof {
        reveal_strlit("0");
        reveal_strlit("1");
        reveal_strlit("2");
        reveal_strlit("3");
        reveal_strlit("4");
        reveal_strlit("5");
        reveal_strlit("6");
        reveal_strlit("7");
        reveal_strlit("8");
        reveal_strlit("9");
    }
    let s = if d == 0 {
        "0"
    } else if d == 1 {
        "1"
    } else if d == 2 {
        "2"
    } else if d == 3 {
        "3"
    } else if d == 4 {
        "4"
    } else if d == 5 {
        "5"
    } else if d == 6 {
        "6"
    } else if d == 7 {
        "7"
    } else if d == 8 {
        "8"
    } else {
        "9"
    };
    assert(s@ =~= seq![digit_char(d as nat)]);
    s
}

/// Prints `n` in decimal digits.
fn natural_to_text(n: u64) -> (text: String)
    ensures
        text@ == natural_text(n as nat),
    decreases n,
{
    if n < 10 {
        String::from_str(digit_str(n))
    } else {
        let mut text = natural_to_text(n / 10);
        text.append(digit_str(n % 10));
        assert(text@ =~= natural_text((n / 10) as nat).push(digit_char((n % 10) as nat)));
        text
    }
}

/// Prints `value` as an integer literal.
pub fn integer_to_text(value: i64) -> (text: String)
    ensures
        text@ == integer_text(value as int),
{
    if value < 0 {
        let magnitude: u64 = (-(value as i128)) as u64;
        let digits = natural_to_text(magnitude);
        let text = String::from_str("-").concat(digits.as_str());
        proof {
            reveal_strlit("-");
            assert(text@ =~= seq!['-'] + natural_text((-value) as nat));
        }
        text
    } else {
        natural_to_text(value as u64)
    }
}

/// The digits printed for `n` form a natural literal that spells `n`.
pub proof fn lemma_natural_text_reads_back(n: nat)
    ensures
        is_natural_literal(natural_text(n)),
        digits_value(natural_text(n)) == n,
        n > 0 ==> natural_text(n)[0] != '0',
        natural_text(n)[0] != '-',
    decreases n,
{
    if n < 10 {
        let s = natural_text(n);
        assert(s.drop_last() =~= Seq::<char>::empty());
        assert(digits_value(s.drop_last()) == 0);
    } else {
        lemma_natural_text_reads_back(n / 10);
        let head = natural_text(n / 10);
        let c = digit_char(n % 10);
        lemma_digits_value_push(head, c);
        assert(head.push(c)[0] == head[0]);
        assert forall|i: int| 0 <= i < head.push(c).len() implies is_ascii_digit(
            #[trigger] head.push(c)[i],
        ) by {
            if i < head.len() {
                assert(head.push(c)[i] == head[i]);
            }
        }
    }
}

/// Reading what was printed for an integer gives the integer back.
pub proof fn lemma_integer_text_reads_back(v: i64)
    ensures
        integer_reading(integer_text(v as int)) == Some(v),
{
    reveal_strlit("-");
    if v < 0 {
        let n = (-v) as nat;
        lemma_natural_text_reads_back(n);
        let s = integer_text(v as int);
        assert(s[0] == '-');
        assert(s.drop_first() =~= natural_text(n));
    } else {
        lemma_natural_text_reads_back(v as nat);
    }
}

} // verus!
