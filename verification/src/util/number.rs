//! Reading unsigned decimal numbers from text.

use vstd::prelude::*;
use vstd::string::*;

verus! {

/// How reading an unsigned number from a text ends.
#[derive(Debug, Clone, Copy, PartialEq, Eq, Structural)]
pub enum ParsedNumber {
    /// The text is a number that fits.
    Value(u64),
    /// The text is empty.
    Empty,
    /// The text holds something that is no decimal digit.
    InvalidDigit,
    /// The number does not fit into 64 bits.
    TooLarge,
}

/// Whether `c` is a decimal digit.
pub open spec fn is_digit(c: char) -> bool {
    48 <= c as u32 <= 57
}

/// The value of the decimal digit `c`.
pub open spec fn digit_value(c: char) -> nat {
    (c as u32 - 48) as nat
}

/// How reading the digits of `body` from left to right ends: at the first
/// character that is no digit the text is invalid, at the first digit with
/// which the number no longer fits it is too large.
pub open spec fn parsed_digits(body: Seq<char>) -> ParsedNumber
    decreases body.len(),
{
    if body.len() == 0 {
        ParsedNumber::Value(0)
    } else {
        match parsed_digits(body.drop_last()) {
            ParsedNumber::Value(v) => if !is_digit(body.last()) {
                ParsedNumber::InvalidDigit
            } else if v * 10 + digit_value(body.last()) > u64::MAX {
                ParsedNumber::TooLarge
            } else {
                ParsedNumber::Value((v * 10 + digit_value(body.last())) as u64)
            },
            other => other,
        }
    }
}

/// How reading an unsigned number from `text` ends. One plus sign may stand
/// before the digits; at least one digit is needed.
pub open spec fn parsed_u64(text: Seq<char>) -> ParsedNumber {
    if text.len() == 0 {
        ParsedNumber::Empty
    } else if text[0] == '+' {
        if text.len() == 1 {
            ParsedNumber::InvalidDigit
        } else {
            parsed_digits(text.skip(1))
        }
    } else {
        parsed_digits(text)
    }
}

proof fn lemma_parsed_digits_sticks(body: Seq<char>, upto: int, later: int)
    requires
        0 <= upto <= later <= body.len(),
        !(parsed_digits(body.take(upto)) is Value),
    ensures
        parsed_digits(body.take(later)) == parsed_digits(body.take(upto)),
    decreases later - upto,
{
    if upto < later {
        lemma_parsed_digits_sticks(body, upto, later - 1);
        assert(body.take(later).drop_last() =~= body.take(later - 1));
    }
}

fn parse_digits_from(text: &str, start: usize) -> (outcome: ParsedNumber)
    requires
        start <= text@.len(),
    ensures
        outcome == parsed_digits(text@.skip(start as int)),
{
    let n = text.unicode_len();
    let ghost body = text@.skip(start as int);
    let mut value: u64 = 0;
    let mut i: usize = start;
    assert(body.take(0) =~= Seq::<char>::empty());
    while i < n
        invariant
            n == text@.len(),
            start <= i <= n,
            body == text@.skip(start as int),
            parsed_digits(body.take(i - start)) == ParsedNumber::Value(value),
        decreases n - i,
    {
        let c = text.get_char(i);
        let u: u32 = c as u32;
        let ghost next = body.take(i - start + 1);
        proof {
            assert(next.drop_last() =~= body.take(i - start));
            assert(next.last() == c);
        }
        if !(48 <= u && u <= 57) {
            proof {
                assert(parsed_digits(next) == ParsedNumber::InvalidDigit);
                lemma_parsed_digits_sticks(body, i - start + 1, body.len() as int);
                assert(body.take(body.len() as int) =~= body);
            }
            return ParsedNumber::InvalidDigit;
        }
        let d: u64 = (u - 48) as u64;
        if value > (u64::MAX - d) / 10 {
            proof {
                assert(value * 10 + d > u64::MAX);
                assert(parsed_digits(next) == ParsedNumber::TooLarge);
                lemma_parsed_digits_sticks(body, i - start + 1, body.len() as int);
                assert(body.take(body.len() as int) =~= body);
            }
            return ParsedNumber::TooLarge;
        }
        value = value * 10 + d;
        i += 1;
    }
    assert(body.take(body.len() as int) =~= body);
    ParsedNumber::Value(value)
}

/// Reads an unsigned number from `text`, as `str::parse::<u64>` does.
pub fn parse_u64(text: &str) -> (outcome: ParsedNumber)
    ensures
        outcome == parsed_u64(text@),
{
    let n = text.unicode_len();
    if n == 0 {
        return ParsedNumber::Empty;
    }
    if text.get_char(0) == '+' {
        if n == 1 {
            ParsedNumber::InvalidDigit
        } else {
            parse_digits_from(text, 1)
        }
    } else {
        assert(text@.skip(0) =~= text@);
        parse_digits_from(text, 0)
    }
}

} // verus!
