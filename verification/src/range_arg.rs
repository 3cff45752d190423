//! The range argument: one number, or two numbers with a dash between them,
//! turned into the alternation of every number from the first to the last.

use vstd::prelude::*;
use vstd::string::*;

use crate::text::{chars_of, decimal, push_decimal};

verus! {

/// Why a range argument is refused.
#[derive(Clone, Copy, PartialEq, Eq, Debug)]
pub enum RangeArgError {
    /// A number is missing: the text before or after the dash is empty.
    Empty,
    /// A character of a number is no decimal digit.
    InvalidDigit,
    /// A number does not fit in 32 bits.
    Overflow,
}

/// The value of a decimal digit, where the character is one.
pub open spec fn digit_value(c: char) -> Option<nat> {
    if c == '0' {
        Some(0)
    } else if c == '1' {
        Some(1)
    } else if c == '2' {
        Some(2)
    } else if c == '3' {
        Some(3)
    } else if c == '4' {
        Some(4)
    } else if c == '5' {
        Some(5)
    } else if c == '6' {
        Some(6)
    } else if c == '7' {
        Some(7)
    } else if c == '8' {
        Some(8)
    } else if c == '9' {
        Some(9)
    } else {
        None
    }
}

/// Reads digits from left to right on top of the value `acc` read so far.
/// The first character that is no digit, or with which the value leaves 32
/// bits, decides the error.
pub open spec fn read_digits(s: Seq<char>, acc: nat) -> Result<nat, RangeArgError>
    decreases s.len(),
{
    if s.len() == 0 {
        Ok(acc)
    } else {
        match digit_value(s[0]) {
            None => Err(RangeArgError::InvalidDigit),
            Some(d) => if acc * 10 + d > u32::MAX {
                Err(RangeArgError::Overflow)
            } else {
                read_digits(s.drop_first(), acc * 10 + d)
            },
        }
    }
}

/// The number that a text stands for: decimal digits, with one plus sign
/// before them if any.
pub open spec fn number(s: Seq<char>) -> Result<nat, RangeArgError> {
    if s.len() == 0 {
        Err(RangeArgError::Empty)
    } else if s[0] == '+' {
        if s.len() == 1 {
            Err(RangeArgError::InvalidDigit)
        } else {
            read_digits(s.drop_first(), 0)
        }
    } else {
        read_digits(s, 0)
    }
}

/// The position of the first dash at or after `from`, or the length of the
/// text where there is none.
pub open spec fn next_dash(s: Seq<char>, from: int) -> int
    decreases s.len() - from,
{
    if from < 0 || from >= s.len() {
        s.len() as int
    } else if s[from] == '-' {
        from
    } else {
        next_dash(s, from + 1)
    }
}

/// The first and the last number of a range argument.
///
/// The first number is the text before the first dash. Where the text has
/// exactly one dash, the last number is the text after it; in every other
/// case it is the first number again.
pub open spec fn range_bounds(s: Seq<char>) -> Result<(nat, nat), RangeArgError> {
    let first_dash = next_dash(s, 0);
    match number(s.subrange(0, first_dash)) {
        Err(e) => Err(e),
        Ok(start) => if first_dash < s.len() && next_dash(s, first_dash + 1) == s.len() {
            match number(s.subrange(first_dash + 1, s.len() as int)) {
                Err(e) => Err(e),
                Ok(end) => Ok((start, end)),
            }
        } else {
            Ok((start, start))
        },
    }
}

/// The numbers from `start` to `end`, both included, in decimal, with a bar
/// between each two; the empty text where `end` is below `start`.
pub open spec fn alternation(start: nat, end: nat) -> Seq<char>
    decreases end + 1 - start,
{
    if end < start {
        Seq::empty()
    } else if end == start {
        decimal(start)
    } else {
        alternation(start, (end - 1) as nat) + seq!['|'] + decimal(end)
    }
}

/// The value of a decimal digit.
fn digit_of(c: char) -> (d: Option<u32>)
    ensures
        match d {
            Some(v) => digit_value(c) == Some(v as nat),
            None => digit_value(c) is None,
        },
{
    if c == '0' {
        Some(0)
    } else if c == '1' {
        Some(1)
    } else if c == '2' {
        Some(2)
    } else if c == '3' {
        Some(3)
    } else if c == '4' {
        Some(4)
    } else if c == '5' {
        Some(5)
    } else if c == '6' {
        Some(6)
    } else if c == '7' {
        Some(7)
    } else if c == '8' {
        Some(8)
    } else if c == '9' {
        Some(9)
    } else {
        None
    }
}

/// Reads the number that stands between two positions of a text.
fn parse_number(chars: &Vec<char>, from: usize, to: usize) -> (r: Result<u32, RangeArgError>)
    requires
        from <= to <= chars.len(),
    ensures
        match r {
            Ok(n) => number(chars@.subrange(from as int, to as int)) == Ok::<nat, RangeArgError>(
                n as nat,
            ),
            Err(e) => number(chars@.subrange(from as int, to as int)) == Err::<nat, RangeArgError>(
                e,
            ),
        },
{
    let ghost s = chars@.subrange(from as int, to as int);
    if from == to {
        return Err(RangeArgError::Empty);
    }
    let mut i: usize = from;
    if chars[from] == '+' {
        assert(s[0] == '+');
        if to - from == 1 {
            return Err(RangeArgError::InvalidDigit);
        }
        i = from + 1;
    } else {
        assert(s[0] != '+');
    }
    let mut acc: u32 = 0;
    assert(s.subrange(i - from, s.len() as int) =~= if i == from {
        s
    } else {
        s.drop_first()
    });
    while i < to
        invariant
            from <= i <= to <= chars.len(),
            s == chars@.subrange(from as int, to as int),
            number(s) == read_digits(s.subrange(i - from, s.len() as int), acc as nat),
        decreases to - i,
    {
        let ghost rest = s.subrange(i - from, s.len() as int);
        assert(rest[0] == chars[i as int]);
        assert(rest.drop_first() =~= s.subrange(i + 1 - from, s.len() as int));
        let d = match digit_of(chars[i]) {
            Some(d) => d,
            None => {
                return Err(RangeArgError::InvalidDigit);
            },
        };
        if acc > (u32::MAX - d) / 10 {
            return Err(RangeArgError::Overflow);
        }
        acc = acc * 10 + d;
        i += 1;
    }
    Ok(acc)
}

/// The position of the first dash at or after `from`.
fn find_dash(chars: &Vec<char>, from: usize) -> (at: usize)
    requires
        from <= chars.len(),
    ensures
        at == next_dash(chars@, from as int),
        from <= at <= chars.len(),
{
    let mut i: usize = from;
    while i < chars.len() && chars[i] != '-'
        invariant
            from <= i <= chars.len(),
            next_dash(chars@, from as int) == next_dash(chars@, i as int),
        decreases chars.len() - i,
    {
        i += 1;
    }
    i
}

/// Turns a range argument into the alternation of its numbers: `"2019"`
/// gives `"2019"`, and `"2019-2021"` gives `"2019|2020|2021"`.
///
/// The argument is a number, or two numbers with a dash between them; a
/// number is made of decimal digits, with one plus sign before them if any,
/// and fits in 32 bits. Where the text has more than one dash, what follows
/// the first dash is not read and the range ends where it starts. A range
/// that ends below its start gives the empty text.
pub fn parse_range_arg(range_str: String) -> (r: Result<String, RangeArgError>)
    ensures
        match r {
            Ok(text) => match range_bounds(range_str@) {
                Ok((start, end)) => text@ == alternation(start, end),
                Err(_) => false,
            },
            Err(e) => range_bounds(range_str@) == Err::<(nat, nat), RangeArgError>(e),
        },
{
    let chars = chars_of(range_str.as_str());
    let first_dash = find_dash(&chars, 0);
    let start: u32 = match parse_number(&chars, 0, first_dash) {
        Ok(n) => n,
        Err(e) => {
            return Err(e);
        },
    };
    let mut end: u32 = start;
    if first_dash < chars.len() {
        let second_dash = find_dash(&chars, first_dash + 1);
        if second_dash == chars.len() {
            end = match parse_number(&chars, first_dash + 1, chars.len()) {
                Ok(n) => n,
                Err(e) => {
                    return Err(e);
                },
            };
        }
    }
    assert(range_bounds(range_str@) == Ok::<(nat, nat), RangeArgError>((start as nat, end as nat)));
    let mut text = String::new();
    if end < start {
        return Ok(text);
    }
    push_decimal(&mut text, start as u64);
    assert(text@ =~= alternation(start as nat, start as nat));
    let mut i: u32 = start;
    while i < end
        invariant
            start <= i <= end,
            text@ == alternation(start as nat, i as nat),
        decreases end - i,
    {
        i += 1;
        proof {
            reveal_strlit("|");
        }
        text.append("|");
        push_decimal(&mut text, i as u64);
        assert("|"@ =~= seq!['|']);
        assert(text@ =~= alternation(start as nat, i as nat));
    }
    Ok(text)
}

} // verus!
