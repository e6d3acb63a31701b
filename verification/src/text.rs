//! Strings as sequences of characters: conversions, decimal numerals and
//! splitting at a separator.

use vstd::prelude::*;
use crate::keys::{encode_key, key_spec, symbol};

verus! {

/// Specifies `String::push`: the character is appended at the end.
pub assume_specification[ String::push ](s: &mut String, c: char)
    ensures
        final(s)@ == old(s)@.push(c),
;

/// The characters of `s`, in order.
pub fn chars_of(s: &str) -> (out: Vec<char>)
    ensures
        out@ == s@,
{
    let mut out: Vec<char> = Vec::new();
    let it = s.chars();
    for c in iter: it
        invariant
            out@ == iter.seq().take(iter.index() as int),
            iter.seq() == s@,
    {
        out.push(c);
    }
    out
}

/// Whether `c` is one of the ten decimal digits.
pub open spec fn is_digit(c: char) -> bool {
    '0' <= c <= '9'
}

/// Whether `c` is one of the ten decimal digits.
pub fn digit(c: char) -> (yes: bool)
    ensures
        yes == is_digit(c),
{
    '0' <= c && c <= '9'
}

/// The number that the decimal digit `c` stands for.
pub open spec fn digit_value(c: char) -> nat {
    (c as nat - 48) as nat
}

/// Whether `s` consists of decimal digits only.
pub open spec fn all_digits(s: Seq<char>) -> bool {
    forall|i: int| 0 <= i < s.len() ==> is_digit(#[trigger] s[i])
}

/// Whether `s` is a numeral: one or more decimal digits and nothing else.
pub open spec fn is_numeral(s: Seq<char>) -> bool {
    s.len() > 0 && all_digits(s)
}

/// Tells whether `text` is one or more decimal digits and nothing else.
pub fn numeral(text: &str) -> (yes: bool)
    ensures
        yes == is_numeral(text@),
{
    let chars = chars_of(text);
    let mut i: usize = 0;
    while i < chars.len()
        invariant
            i <= chars.len(),
            chars@ == text@,
            forall|k: int| 0 <= k < i ==> is_digit(#[trigger] chars@[k]),
        decreases chars.len() - i,
    {
        if !digit(chars[i]) {
            return false;
        }
        i = i + 1;
    }
    chars.len() > 0
}

/// The number that the decimal numeral `s` stands for.
pub open spec fn decimal_value(s: Seq<char>) -> nat
    decreases s.len(),
{
    if s.len() == 0 {
        0
    } else {
        decimal_value(s.drop_last()) * 10 + digit_value(s.last())
    }
}

/// What a text holds as a decimal numeral: its value, if it is a run of one
/// or more digits whose value is no more than `usize::MAX`.
pub open spec fn decimal_number(s: Seq<char>) -> Option<usize> {
    if is_numeral(s) && decimal_value(s) <= usize::MAX {
        Some(decimal_value(s) as usize)
    } else {
        None
    }
}

/// A numeral is worth at least as much as each of its beginnings.
pub proof fn decimal_value_grows(s: Seq<char>, k: int)
    requires
        0 <= k <= s.len(),
    ensures
        decimal_value(s.take(k)) <= decimal_value(s),
    decreases s.len() - k,
{
    if k == s.len() {
        assert(s.take(k) == s);
    } else {
        decimal_value_grows(s, k + 1);
        assert(s.take(k + 1).drop_last() == s.take(k));
    }
}

/// Reads `text` as a decimal numeral.
pub fn parse_decimal(text: &str) -> (value: Option<usize>)
    ensures
        value == decimal_number(text@),
{
    let chars = chars_of(text);
    if chars.len() == 0 {
        return None;
    }
    let mut total: usize = 0;
    let mut i: usize = 0;
    while i < chars.len()
        invariant
            i <= chars.len(),
            chars@ == text@,
            all_digits(chars@.take(i as int)),
            total == decimal_value(chars@.take(i as int)),
        decreases chars.len() - i,
    {
        let c = chars[i];
        if !digit(c) {
            return None;
        }
        proof {
            assert(chars@.take(i + 1).drop_last() == chars@.take(i as int));
            decimal_value_grows(chars@, i + 1);
        }
        let d: usize = (c as u8 - 48) as usize;
        let shifted = match total.checked_mul(10) {
            Some(v) => v,
            None => { return None; },
        };
        total = match shifted.checked_add(d) {
            Some(v) => v,
            None => { return None; },
        };
        i = i + 1;
    }
    assert(chars@.take(i as int) == chars@);
    Some(total)
}

/// The decimal numeral of `n`, without leading zeros.
pub open spec fn decimal_digits(n: nat) -> Seq<char> {
    key_spec(n, 10)
}

/// The numeral of a number is made of digits, and stands for the number.
pub proof fn decimal_digits_value(n: nat)
    ensures
        decimal_digits(n).len() >= 1,
        all_digits(decimal_digits(n)),
        decimal_value(decimal_digits(n)) == n,
    decreases n,
{
    reveal(key_spec);
    if n < 10 {
        let digits = decimal_digits(n);
        assert(digits == seq![symbol(n)]);
        assert(digits.drop_last() == Seq::<char>::empty());
        assert(decimal_value(digits.drop_last()) == 0);
        assert(digits.last() == symbol(n));
    } else {
        let head = decimal_digits(n / 10);
        let digits = decimal_digits(n);
        decimal_digits_value(n / 10);
        assert(digits == head.push(symbol(n % 10)));
        assert(digits.drop_last() == head);
        assert(digits.last() == symbol(n % 10));
        assert forall|i: int| 0 <= i < digits.len() implies is_digit(#[trigger] digits[i]) by {
            if i < head.len() {
                assert(digits[i] == head[i]);
            }
        }
    }
}

/// Writes `n` as a decimal numeral.
pub fn decimal_text(n: u64) -> (text: String)
    ensures
        text@ == decimal_digits(n as nat),
{
    encode_key(n, 10)
}

/// The pieces into which the occurrences of `separator` cut `s`: one more
/// than there are occurrences, each free of the separator, empty ones kept.
pub open spec fn split_spec(s: Seq<char>, separator: char) -> Seq<Seq<char>>
    decreases s.len(),
{
    if s.len() == 0 {
        seq![Seq::<char>::empty()]
    } else {
        let before = split_spec(s.drop_last(), separator);
        if s.last() == separator {
            before.push(Seq::<char>::empty())
        } else {
            before.drop_last().push(before.last().push(s.last()))
        }
    }
}

/// Cuts `text` at every occurrence of `separator`.
pub fn split_on(text: &str, separator: char) -> (pieces: Vec<String>)
    ensures
        pieces.deep_view() == split_spec(text@, separator),
{
    let chars = chars_of(text);
    let mut pieces: Vec<String> = Vec::new();
    let mut current = String::new();
    let mut i: usize = 0;
    while i < chars.len()
        invariant
            i <= chars.len(),
            chars@ == text@,
            pieces.deep_view().push(current@) == split_spec(chars@.take(i as int), separator),
        decreases chars.len() - i,
    {
        let c = chars[i];
        proof {
            assert(chars@.take(i + 1).drop_last() == chars@.take(i as int));
            assert(pieces.deep_view().push(current@).drop_last() == pieces.deep_view());
        }
        if c == separator {
            let ghost before = pieces.deep_view();
            pieces.push(current);
            current = String::new();
            assert(pieces.deep_view() == before.push(pieces[pieces.len() - 1]@));
        } else {
            current.push(c);
        }
        i = i + 1;
    }
    assert(chars@.take(i as int) == chars@);
    let ghost before = pieces.deep_view();
    pieces.push(current);
    assert(pieces.deep_view() == before.push(pieces[pieces.len() - 1]@));
    pieces
}

} // verus!
