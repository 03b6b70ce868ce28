//! Text-to-segment parser for ad hoc numeric readouts.
//!
//! The accepted format is made of decimal digits, spaces and dots. Digits
//! and spaces each take one display position from the left; a dot lights the
//! decimal point of the position just filled, so it may neither start the
//! text nor follow another dot. Text that holds any other character, or
//! that does not fit the four positions, yields no result rather than a
//! partial pattern.

use vstd::prelude::*;

use crate::segments::spec_digit_pattern;
use crate::segments::digit_pattern;
use crate::segments::DOT_BIT;

verus! {

pub open spec fn is_digit_char(c: char) -> bool {
    '0' <= c && c <= '9'
}

/// Parse of the text from position `i` on, given the patterns accumulated so
/// far, the next free display position and the previous character.
///
/// A digit writes its segment pattern at `index`; a space leaves its
/// position blank; both advance `index`. A dot sets the decimal-point bit
/// of the position just before `index`. Positions past the fourth cannot be
/// written, so a digit with `index >= 4`, or a dot with `index > 4`, yields
/// `None`, as does a leading dot, a doubled dot or any other character.
pub open spec fn spec_parse_from(
    s: Seq<char>,
    i: int,
    acc: Seq<u8>,
    index: int,
    prev: Option<char>,
) -> Option<Seq<u8>>
    decreases s.len() - i,
{
    if i < 0 || i >= s.len() {
        Some(acc)
    } else {
        let c = s[i];
        if is_digit_char(c) {
            if index < 4 {
                spec_parse_from(
                    s,
                    i + 1,
                    acc.update(index, spec_digit_pattern(c as int - '0' as int)),
                    index + 1,
                    Some(c),
                )
            } else {
                None
            }
        } else if c == ' ' {
            spec_parse_from(s, i + 1, acc, index + 1, Some(c))
        } else if c == '.' {
            if prev is None || prev == Some('.') || index > 4 {
                None
            } else {
                spec_parse_from(s, i + 1, acc.update(index - 1, acc[index - 1] | DOT_BIT), index, Some(c))
            }
        } else {
            None
        }
    }
}

/// What `parse` returns: the four segment patterns of the text, or `None`
/// where the text is rejected.
pub open spec fn spec_parse(s: Seq<char>) -> Option<Seq<u8>> {
    spec_parse_from(s, 0, seq![0u8, 0u8, 0u8, 0u8], 0, None)
}

/// Converts a numeric readout text into the four segment patterns of the
/// display, one per position, or returns `None` where the text is rejected.
pub fn parse(format: &String) -> (r: Option<[u8; 4]>)
    ensures
        match r {
            Some(patterns) => spec_parse(format@) == Some(patterns@),
            None => spec_parse(format@) is None,
        },
{
    let s: &str = format.as_str();
    let n: usize = s.unicode_len();
    let mut result: [u8; 4] = [0u8, 0u8, 0u8, 0u8];
    let mut index: usize = 0;
    let mut ch_prev: Option<char> = None;
    let mut i: usize = 0;

    proof {
        assert(result@ =~= seq![0u8, 0u8, 0u8, 0u8]);
    }

    while i < n
        invariant
            n == s@.len(),
            i <= n,
            index <= i,
            ch_prev is Some ==> index >= 1,
            spec_parse(format@) == spec_parse_from(s@, i as int, result@, index as int, ch_prev),
            format@ == s@,
        decreases n - i,
    {
        let ch = s.get_char(i);
        if '0' <= ch && ch <= '9' {
            if index >= 4 {
                return None;
            }
            let number = (ch as u8) - 48u8;
            let pattern = digit_pattern(number);
            result[index] = pattern;
            index = index + 1;
        } else if ch == ' ' {
            index = index + 1;
        } else if ch == '.' {
            let prev_ok = match ch_prev {
                None => false,
                Some(p) => p != '.',
            };
            if !prev_ok || index > 4 {
                return None;
            }
            result[index - 1] = result[index - 1] | DOT_BIT;
        } else {
            return None;
        }
        ch_prev = Some(ch);
        i = i + 1;
    }
    Some(result)
}

} // verus!
