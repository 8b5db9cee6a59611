//! Reading a span of time: a number of seconds, or hours, minutes and
//! seconds as in "1h30m".

use crate::histogram::saturate;
use vstd::prelude::*;
use vstd::string::StrSliceExecFns;

verus! {

/// One of the characters '0' to '9'.
pub open spec fn is_digit(c: char) -> bool {
    '0' <= c && c <= '9'
}

/// The number a digit stands for.
pub open spec fn digit_value(c: char) -> nat {
    (c as u32 - '0' as u32) as nat
}

/// The number that a run of digits stands for; zero for no digits.
pub open spec fn digits_value(s: Seq<char>) -> nat
    decreases s.len(),
{
    if s.len() == 0 {
        0
    } else {
        digits_value(s.drop_last()) * 10 + digit_value(s.last())
    }
}

/// The position after the digits that start at `from`.
pub open spec fn digits_end(s: Seq<char>, from: int) -> int
    decreases s.len() - from,
{
    if 0 <= from < s.len() && is_digit(s[from]) {
        digits_end(s, from + 1)
    } else {
        from
    }
}

/// A number followed by the letter `unit`, read at `from`: the number,
/// and the position after the letter.
pub open spec fn unit_at(s: Seq<char>, from: int, unit: char) -> Option<(nat, int)> {
    let end = digits_end(s, from);
    if from < end < s.len() && s[end] == unit {
        Some((digits_value(s.subrange(from, end)), end + 1))
    } else {
        None
    }
}

/// The seconds of a span written as hours, minutes and seconds, each a
/// number followed by 'h', 'm' or 's', each optional, in this order and
/// from the start of the text. What follows them is not read.
pub open spec fn span_seconds(s: Seq<char>) -> nat {
    let (hours, after_hours) = match unit_at(s, 0, 'h') {
        Some(found) => found,
        None => (0nat, 0int),
    };
    let (minutes, after_minutes) = match unit_at(s, after_hours, 'm') {
        Some(found) => found,
        None => (0nat, after_hours),
    };
    let seconds = match unit_at(s, after_minutes, 's') {
        Some(found) => found.0,
        None => 0nat,
    };
    hours * 3600 + minutes * 60 + seconds
}

/// The seconds that a text stands for: a text of digits alone is a number
/// of seconds, any other text is read as hours, minutes and seconds. A
/// span too long for a machine word is the longest that fits.
pub open spec fn spec_parse_timespan(s: Seq<char>) -> usize {
    if s.len() > 0 && digits_end(s, 0) == s.len() {
        saturate(digits_value(s))
    } else {
        saturate(span_seconds(s))
    }
}

/// The digits that start at `from` end within the text.
pub proof fn lemma_digits_end_bounds(s: Seq<char>, from: int)
    requires
        0 <= from <= s.len(),
    ensures
        from <= digits_end(s, from) <= s.len(),
        forall|i: int| from <= i < digits_end(s, from) ==> is_digit(s[i]),
        digits_end(s, from) < s.len() ==> !is_digit(s[digits_end(s, from)]),
    decreases s.len() - from,
{
    if from < s.len() && is_digit(s[from]) {
        lemma_digits_end_bounds(s, from + 1);
    }
}

/// The digits that start at `from` end where the first character that is
/// no digit stands.
pub proof fn lemma_digits_end_is(s: Seq<char>, from: int, end: int)
    requires
        0 <= from <= end <= s.len(),
        forall|i: int| from <= i < end ==> is_digit(s[i]),
        end < s.len() ==> !is_digit(s[end]),
    ensures
        digits_end(s, from) == end,
    decreases end - from,
{
    if from < end {
        lemma_digits_end_is(s, from + 1, end);
    }
}

/// Reads the digits that start at `from`: the position after them, and
/// the number they stand for, held at the largest machine word if it is
/// larger.
pub fn scan_number(s: &str, len: usize, from: usize) -> (r: (usize, usize))
    requires
        len == s@.len(),
        from <= len,
    ensures
        r.0 == digits_end(s@, from as int),
        from <= r.0 <= len,
        r.1 == saturate(digits_value(s@.subrange(from as int, r.0 as int))),
{
    let mut end: usize = from;
    let mut value: usize = 0;
    let mut full: bool = false;
    assert(s@.subrange(from as int, from as int) =~= Seq::<char>::empty());
    loop
        invariant
            len == s@.len(),
            from <= end <= len,
            forall|i: int| from <= i < end ==> is_digit(s@[i]),
            full ==> digits_value(s@.subrange(from as int, end as int)) > usize::MAX,
            !full ==> value == digits_value(s@.subrange(from as int, end as int)),
        ensures
            from <= end <= len,
            end == digits_end(s@, from as int),
            full ==> digits_value(s@.subrange(from as int, end as int)) > usize::MAX,
            !full ==> value == digits_value(s@.subrange(from as int, end as int)),
        decreases len - end,
    {
        if end >= len {
            proof {
                lemma_digits_end_is(s@, from as int, end as int);
            }
            break ;
        }
        let c = s.get_char(end);
        if !('0' <= c && c <= '9') {
            proof {
                lemma_digits_end_is(s@, from as int, end as int);
            }
            break ;
        }
        let digit: usize = (c as u32 - '0' as u32) as usize;
        proof {
            let longer = s@.subrange(from as int, end + 1);
            assert(longer.drop_last() =~= s@.subrange(from as int, end as int));
            assert(longer.last() == c);
        }
        if !full {
            let next = match value.checked_mul(10) {
                Some(tens) => tens.checked_add(digit),
                None => None,
            };
            match next {
                Some(n) => {
                    value = n;
                },
                None => {
                    full = true;
                },
            }
        }
        end = end + 1;
    }
    if full {
        (end, usize::MAX)
    } else {
        (end, value)
    }
}

/// Reads a number followed by the letter `unit` at `from`.
pub fn scan_unit(s: &str, len: usize, from: usize, unit: char) -> (r: Option<(usize, usize)>)
    requires
        len == s@.len(),
        from <= len,
    ensures
        match r {
            Some((value, after)) => unit_at(s@, from as int, unit) matches Some(found)
                && value == saturate(found.0) && after == found.1 && after <= len,
            None => unit_at(s@, from as int, unit) is None,
        },
{
    let (end, value) = scan_number(s, len, from);
    if from < end && end < len {
        let c = s.get_char(end);
        if c == unit {
            return Some((value, end + 1));
        }
    }
    None
}

/// Reads a span of time given as text and returns its seconds: a text of
/// digits alone is a number of seconds; otherwise hours, minutes and
/// seconds are read, as in "1h30m", "20m" or "90s".
pub fn parse_timespan(time_str: &str) -> (r: usize)
    ensures
        r == spec_parse_timespan(time_str@),
{
    let len = time_str.unicode_len();
    let (end, value) = scan_number(time_str, len, 0);
    if len > 0 && end == len {
        assert(time_str@.subrange(0, len as int) =~= time_str@);
        return value;
    }
    let (hours, after_hours): (usize, usize) = match scan_unit(time_str, len, 0, 'h') {
        Some(found) => found,
        None => (0, 0),
    };
    let (minutes, after_minutes): (usize, usize) = match scan_unit(
        time_str,
        len,
        after_hours,
        'm',
    ) {
        Some(found) => found,
        None => (0, after_hours),
    };
    let seconds: usize = match scan_unit(time_str, len, after_minutes, 's') {
        Some(found) => found.0,
        None => 0,
    };
    let total: u128 = hours as u128 * 3600 + minutes as u128 * 60 + seconds as u128;
    if total > usize::MAX as u128 {
        usize::MAX
    } else {
        total as usize
    }
}

} // verus!
