//! How a move is written: a letter for `x` and a decimal number for `y`, as
//! in `j10`.

use vstd::prelude::*;
use vstd::string::StringSliceAdditionalSpecFns;
use crate::coord::CoordinationFlat;

verus! {

/// The number a letter stands for: `a` and `A` for 1, up to `z` and `Z` for
/// 26. Nothing else is a letter.
pub open spec fn letter_value(byte: u8) -> Option<usize> {
    if 'a' as u8 <= byte <= 'z' as u8 {
        Some((byte - 'a' as u8 + 1) as usize)
    } else if 'A' as u8 <= byte <= 'Z' as u8 {
        Some((byte - 'A' as u8 + 1) as usize)
    } else {
        None
    }
}

pub open spec fn is_digit(byte: u8) -> bool {
    '0' as u8 <= byte <= '9' as u8
}

pub open spec fn all_digits(text: Seq<u8>) -> bool {
    forall|i: int| 0 <= i < text.len() ==> is_digit(#[trigger] text[i])
}

/// What a decimal digit is worth.
pub open spec fn digit_value(byte: u8) -> nat {
    if is_digit(byte) {
        (byte - '0' as u8) as nat
    } else {
        0
    }
}

/// The number that a sequence of decimal digits denotes; 0 for no digits.
pub open spec fn decimal_value(digits: Seq<u8>) -> nat
    decreases digits.len(),
{
    if digits.len() == 0 {
        0
    } else {
        10 * decimal_value(digits.drop_last()) + digit_value(digits.last())
    }
}

/// `text` without its sign, if it starts with `+`.
pub open spec fn unsigned(text: Seq<u8>) -> Seq<u8> {
    if text.len() > 0 && text[0] == '+' as u8 {
        text.subrange(1, text.len() as int)
    } else {
        text
    }
}

/// The number that `text` denotes: an optional `+`, then one decimal digit or
/// more, and a value that a `usize` can hold.
pub open spec fn parsed_number(text: Seq<u8>) -> Option<usize> {
    let digits = unsigned(text);
    if digits.len() > 0 && all_digits(digits) && decimal_value(digits) <= usize::MAX {
        Some(decimal_value(digits) as usize)
    } else {
        None
    }
}

/// `line` without the line ending: one `\n` at the end is dropped, then one
/// `\r`.
pub open spec fn without_line_ending(line: Seq<u8>) -> Seq<u8> {
    let line = if line.len() > 0 && line.last() == '\n' as u8 {
        line.drop_last()
    } else {
        line
    };
    if line.len() > 0 && line.last() == '\r' as u8 {
        line.drop_last()
    } else {
        line
    }
}

/// The coordinate that a line of input denotes: a letter for `x`, the rest
/// of the line a number for `y`. `None` for a line that is not of that form.
pub open spec fn parsed_coordinate(line: Seq<u8>) -> Option<CoordinationFlat> {
    let text = without_line_ending(line);
    if text.len() == 0 {
        None
    } else {
        match (letter_value(text[0]), parsed_number(text.subrange(1, text.len() as int))) {
            (Some(x), Some(y)) => Some(CoordinationFlat { x, y }),
            _ => None,
        }
    }
}

/// The digits before a point of a number are worth no more than the number.
pub proof fn lemma_decimal_prefix(digits: Seq<u8>, n: int)
    requires
        0 <= n <= digits.len(),
    ensures
        decimal_value(digits.subrange(0, n)) <= decimal_value(digits),
    decreases digits.len(),
{
    if n == digits.len() {
        assert(digits.subrange(0, n) =~= digits);
    } else {
        lemma_decimal_prefix(digits.drop_last(), n);
        assert(digits.drop_last().subrange(0, n) =~= digits.subrange(0, n));
    }
}

/// The number a letter stands for.
pub fn letter_number(byte: u8) -> (number: Option<usize>)
    ensures
        number == letter_value(byte),
{
    if 'a' as u8 <= byte && byte <= 'z' as u8 {
        Some((byte - 'a' as u8 + 1) as usize)
    } else if 'A' as u8 <= byte && byte <= 'Z' as u8 {
        Some((byte - 'A' as u8 + 1) as usize)
    } else {
        None
    }
}

/// Reads a number from `text[from..to]`.
pub fn parse_number(text: &[u8], from: usize, to: usize) -> (number: Option<usize>)
    requires
        from <= to <= text@.len(),
    ensures
        number == parsed_number(text@.subrange(from as int, to as int)),
{
    let ghost whole = text@.subrange(from as int, to as int);
    let start = if from < to && text[from] == '+' as u8 {
        from + 1
    } else {
        from
    };
    let ghost digits = text@.subrange(start as int, to as int);
    assert(digits =~= unsigned(whole));
    if start == to {
        return None;
    }
    let mut value: usize = 0;
    let mut i = start;
    while i < to
        invariant
            from <= start <= i <= to <= text@.len(),
            digits == text@.subrange(start as int, to as int),
            digits == unsigned(text@.subrange(from as int, to as int)),
            all_digits(digits.subrange(0, i - start)),
            value == decimal_value(digits.subrange(0, i - start)),
        decreases to - i,
    {
        let byte = text[i];
        let ghost seen = digits.subrange(0, i - start + 1);
        proof {
            assert(seen.drop_last() =~= digits.subrange(0, i - start));
            assert(seen.last() == byte);
        }
        if !('0' as u8 <= byte && byte <= '9' as u8) {
            assert(!is_digit(digits[i - start]));
            return None;
        }
        let digit = (byte - '0' as u8) as usize;
        let next = match value.checked_mul(10) {
            Some(tens) => tens.checked_add(digit),
            None => None,
        };
        match next {
            Some(next) => {
                value = next;
            },
            None => {
                proof {
                    assert(decimal_value(seen) > usize::MAX);
                    lemma_decimal_prefix(digits, i - start + 1);
                }
                return None;
            },
        }
        i = i + 1;
    }
    assert(digits.subrange(0, to - start) =~= digits);
    Some(value)
}

/// Reads a move from a line of input.
pub fn parse_coordinate(line: &str) -> (coord: Option<CoordinationFlat>)
    ensures
        coord == parsed_coordinate(line.spec_bytes()),
{
    let bytes = line.as_bytes();
    let mut end = bytes.len();
    if end > 0 && bytes[end - 1] == '\n' as u8 {
        end = end - 1;
    }
    if end > 0 && bytes[end - 1] == '\r' as u8 {
        end = end - 1;
    }
    assert(bytes@.subrange(0, end as int) =~= without_line_ending(bytes@));
    if end == 0 {
        return None;
    }
    let x = letter_number(bytes[0]);
    let y = parse_number(bytes, 1, end);
    assert(bytes@.subrange(1, end as int) =~= bytes@.subrange(0, end as int).subrange(
        1,
        end as int,
    ));
    match (x, y) {
        (Some(x), Some(y)) => Some(CoordinationFlat::new(x, y)),
        _ => None,
    }
}

/// The letter that stands for `x` when a move is written down: `a` for 1, up
/// to `z` for 26. Greater numbers, and 0, have no letter.
pub open spec fn letter_of(x: usize) -> Option<char> {
    if 1 <= x <= 26 {
        Some(('a' as u8 + x - 1) as u8 as char)
    } else {
        None
    }
}

/// The letter that stands for `x` when a move is written down.
pub fn number_letter(x: usize) -> (letter: Option<char>)
    ensures
        letter == letter_of(x),
{
    if 1 <= x && x <= 26 {
        Some(('a' as u8 + (x - 1) as u8) as char)
    } else {
        None
    }
}

/// Letters and the numbers from 1 to 26 stand for each other: the letter of
/// a number reads back as the number, and what a letter reads as has a
/// letter, which is the letter itself in lower case.
pub proof fn lemma_letters_and_numbers(x: usize, byte: u8)
    ensures
        letter_of(x) matches Some(letter) ==> letter_value(letter as u8) == Some(x),
        letter_value(byte) matches Some(number) ==> 1 <= number <= 26 && letter_of(number)
            == Some((if byte >= 'a' as u8 { byte } else { (byte + 32) as u8 }) as char),
{
}

} // verus!
