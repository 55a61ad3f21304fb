//! Parsing of textual durations such as `"3s"`, `"5min"`, `"200ms"` or
//! `"1h30min"` into a millisecond count.
//!
//! A duration string is a sequence of amount/unit pairs, optionally
//! separated by whitespace. An amount is a run of decimal digits; the
//! unit that follows is `ms`, `s`, `min`, `h`, `d`, or empty (seconds).
//! The pairs are summed. Parsing fails on an unexpected character, an
//! amount that does not fit in 64 bits, an unknown unit, or an overflow
//! of the millisecond total.

use vstd::prelude::*;
use vstd::string::StrSliceExecFns;

verus! {

/// Why a duration string was rejected.
#[derive(Clone, Copy, Debug, PartialEq, Eq, Structural)]
pub enum DurationError {
    /// A digit run does not form a number that fits in 64 bits.
    InvalidNumber,
    /// The letters after an amount are not a recognized unit.
    UnknownUnit,
    /// A character that is neither whitespace nor a digit starts a pair.
    UnexpectedChar,
    /// The total, or one amount times its unit, exceeds the 64-bit range.
    Overflow,
}

/// The Unicode `White_Space` set, which `char::is_whitespace` tests:
/// the ASCII whitespace controls and space, next line, no-break space,
/// the Ogham space mark, the typographic spaces, the line and paragraph
/// separators, the narrow and medium mathematical spaces, and the
/// ideographic space.
pub open spec fn is_space_char(c: char) -> bool {
    ||| 9 <= (c as u32) <= 13
    ||| (c as u32) == 32
    ||| (c as u32) == 0x85
    ||| (c as u32) == 0xA0
    ||| (c as u32) == 0x1680
    ||| 0x2000 <= (c as u32) <= 0x200A
    ||| (c as u32) == 0x2028
    ||| (c as u32) == 0x2029
    ||| (c as u32) == 0x202F
    ||| (c as u32) == 0x205F
    ||| (c as u32) == 0x3000
}

/// An ASCII decimal digit.
pub open spec fn is_digit_char(c: char) -> bool {
    '0' <= c <= '9'
}

/// An ASCII letter; letters after an amount form the unit.
pub open spec fn is_unit_char(c: char) -> bool {
    ('a' <= c <= 'z') || ('A' <= c <= 'Z')
}

/// Numeric value of a decimal digit.
pub open spec fn digit_val(c: char) -> int {
    (c as u32) - ('0' as u32)
}

/// Index just past the run of digits starting at `i`.
pub open spec fn digit_run_end(s: Seq<char>, i: int) -> int
    decreases s.len() - i,
{
    if i < 0 || i >= s.len() || !is_digit_char(s[i]) {
        i
    } else {
        digit_run_end(s, i + 1)
    }
}

/// Index just past the run of letters starting at `i`.
pub open spec fn unit_run_end(s: Seq<char>, i: int) -> int
    decreases s.len() - i,
{
    if i < 0 || i >= s.len() || !is_unit_char(s[i]) {
        i
    } else {
        unit_run_end(s, i + 1)
    }
}

/// Value of the digit run `s[i..j)` read as a decimal number.
pub open spec fn digits_value(s: Seq<char>, i: int, j: int) -> int
    decreases j - i,
{
    if i < 0 || j <= i || j > s.len() {
        0
    } else {
        digits_value(s, i, j - 1) * 10 + digit_val(s[j - 1])
    }
}

/// Milliseconds per unit; `None` for an unrecognized unit. The empty
/// unit means seconds.
pub open spec fn unit_multiplier(u: Seq<char>) -> Option<u64> {
    if u.len() == 0 {
        Some(1000u64)
    } else if u.len() == 1 && u[0] == 's' {
        Some(1000u64)
    } else if u.len() == 1 && u[0] == 'h' {
        Some(3600000u64)
    } else if u.len() == 1 && u[0] == 'd' {
        Some(86400000u64)
    } else if u.len() == 2 && u[0] == 'm' && u[1] == 's' {
        Some(1u64)
    } else if u.len() == 3 && u[0] == 'm' && u[1] == 'i' && u[2] == 'n' {
        Some(60000u64)
    } else {
        None
    }
}

/// Bounds of a digit or letter run: it starts at `i`, ends within the
/// string, and is non-empty when the character at `i` belongs to it.
pub proof fn lemma_digit_run_end_bounds(s: Seq<char>, i: int)
    requires
        0 <= i <= s.len(),
    ensures
        i <= digit_run_end(s, i) <= s.len(),
        i < s.len() && is_digit_char(s[i]) ==> digit_run_end(s, i) >= i + 1,
        forall|k: int| i <= k < digit_run_end(s, i) ==> is_digit_char(#[trigger] s[k]),
        digit_run_end(s, i) < s.len() ==> !is_digit_char(s[digit_run_end(s, i)]),
    decreases s.len() - i,
{
    if i < s.len() && is_digit_char(s[i]) {
        lemma_digit_run_end_bounds(s, i + 1);
    }
}

/// Same bounds for a letter run.
pub proof fn lemma_unit_run_end_bounds(s: Seq<char>, i: int)
    requires
        0 <= i <= s.len(),
    ensures
        i <= unit_run_end(s, i) <= s.len(),
        forall|k: int| i <= k < unit_run_end(s, i) ==> is_unit_char(#[trigger] s[k]),
        unit_run_end(s, i) < s.len() ==> !is_unit_char(s[unit_run_end(s, i)]),
    decreases s.len() - i,
{
    if i < s.len() && is_unit_char(s[i]) {
        lemma_unit_run_end_bounds(s, i + 1);
    }
}

/// A digit run's value is non-negative.
pub proof fn lemma_digits_value_nonneg(s: Seq<char>, i: int, j: int)
    requires
        forall|m: int| i <= m < j ==> is_digit_char(#[trigger] s[m]),
    ensures
        digits_value(s, i, j) >= 0,
    decreases j - i,
{
    if !(i < 0 || j <= i || j > s.len()) {
        lemma_digits_value_nonneg(s, i, j - 1);
    }
}

/// Parse the rest of `s` from position `i`, with `acc` milliseconds
/// already accumulated. Each iteration skips whitespace or consumes one
/// amount/unit pair and adds its milliseconds to the total.
pub open spec fn parse_from(s: Seq<char>, i: int, acc: u64) -> Result<u64, DurationError>
    decreases s.len() - i
        when 0 <= i <= s.len()
        via parse_from_dec
{
    if i >= s.len() {
        Ok(acc)
    } else if is_space_char(s[i]) {
        parse_from(s, i + 1, acc)
    } else if is_digit_char(s[i]) {
        let j = digit_run_end(s, i);
        let n = digits_value(s, i, j);
        if n > u64::MAX {
            Err(DurationError::InvalidNumber)
        } else {
            let k = unit_run_end(s, j);
            match unit_multiplier(s.subrange(j, k)) {
                None => Err(DurationError::UnknownUnit),
                Some(m) => if n * m > u64::MAX {
                    Err(DurationError::Overflow)
                } else if acc + n * m > u64::MAX {
                    Err(DurationError::Overflow)
                } else {
                    parse_from(s, k, (acc + n * m) as u64)
                },
            }
        }
    } else {
        Err(DurationError::UnexpectedChar)
    }
}

#[via_fn]
proof fn parse_from_dec(s: Seq<char>, i: int, acc: u64) {
    if 0 <= i < s.len() && !is_space_char(s[i]) && is_digit_char(s[i]) {
        lemma_digit_run_end_bounds(s, i);
        lemma_unit_run_end_bounds(s, digit_run_end(s, i));
    }
}

/// The milliseconds denoted by the whole string, or the first error.
pub open spec fn spec_parse_duration(s: Seq<char>) -> Result<u64, DurationError> {
    parse_from(s, 0, 0u64)
}

/// Parses a duration string into milliseconds.
///
/// `"3s"` is 3000 ms, `"200ms"` is 200 ms, `"5min"` is 300000 ms,
/// `"2h"` is 7200000 ms, `"1d"` is 86400000 ms, a bare number counts
/// seconds, and concatenated pairs such as `"1h30min"` are summed.
pub fn duration_parser(s: &str) -> (r: Result<u64, DurationError>)
    ensures
        r == spec_parse_duration(s@),
{
    let len: usize = s.unicode_len();
    let mut i: usize = 0;
    let mut acc: u64 = 0;
    while i < len
        invariant
            0 <= i <= len,
            len == s@.len(),
            parse_from(s@, i as int, acc) == spec_parse_duration(s@),
        decreases len - i,
    {
        let c = s.get_char(i);
        if is_space(c) {
            i = i + 1;
        } else if is_digit(c) {
            // Read the digit run, accumulating its value; a run whose
            // value exceeds the 64-bit range is an invalid number.
            let ghost run_end: int = digit_run_end(s@, i as int);
            proof {
                lemma_digit_run_end_bounds(s@, i as int);
            }
            let start: usize = i;
            let mut j: usize = i;
            let mut val: u64 = 0;
            let mut overflow: bool = false;
            while j < len && is_digit(s.get_char(j))
                invariant
                    start <= j <= len,
                    len == s@.len(),
                    run_end == digit_run_end(s@, start as int),
                    start <= j <= run_end <= len,
                    forall|m: int| start <= m < run_end ==> is_digit_char(#[trigger] s@[m]),
                    run_end < s@.len() ==> !is_digit_char(s@[run_end]),
                    !overflow ==> val == digits_value(s@, start as int, j as int),
                    overflow ==> digits_value(s@, start as int, j as int) > u64::MAX,
                decreases len - j,
            {
                let c2 = s.get_char(j);
                let d: u64 = digit_to_u64(c2);
                proof {
                    lemma_digits_value_nonneg(s@, start as int, j as int);
                }
                if overflow || val > (u64::MAX - d) / 10 {
                    proof {
                        if !overflow {
                            assert(digits_value(s@, start as int, j + 1) == val * 10 + d);
                        } else {
                            lemma_digits_value_monotone_step(s@, start as int, j as int);
                        }
                    }
                    overflow = true;
                } else {
                    val = val * 10 + d;
                }
                j = j + 1;
            }
            proof {
                assert(j == run_end);
            }
            if overflow {
                proof {
                    assert(digits_value(s@, i as int, run_end) > u64::MAX);
                }
                return Err(DurationError::InvalidNumber);
            }
            // Read the unit run and look up its multiplier.
            let ghost unit_end: int = unit_run_end(s@, j as int);
            proof {
                lemma_unit_run_end_bounds(s@, j as int);
            }
            let unit_start: usize = j;
            let mut k: usize = j;
            while k < len && is_unit(s.get_char(k))
                invariant
                    unit_start <= k <= len,
                    len == s@.len(),
                    unit_end == unit_run_end(s@, unit_start as int),
                    unit_start <= k <= unit_end <= len,
                    forall|m: int| unit_start <= m < unit_end ==> is_unit_char(#[trigger] s@[m]),
                    unit_end < s@.len() ==> !is_unit_char(s@[unit_end]),
                decreases len - k,
            {
                k = k + 1;
            }
            proof {
                assert(k == unit_end);
            }
            let m: u64 = match lookup_unit(s, unit_start, k) {
                Some(m) => m,
                None => {
                    return Err(DurationError::UnknownUnit);
                },
            };
            let term: u64 = match val.checked_mul(m) {
                Some(t) => t,
                None => {
                    return Err(DurationError::Overflow);
                },
            };
            let sum: u64 = match acc.checked_add(term) {
                Some(t) => t,
                None => {
                    return Err(DurationError::Overflow);
                },
            };
            acc = sum;
            i = k;
        } else {
            return Err(DurationError::UnexpectedChar);
        }
    }
    Ok(acc)
}

/// One more digit on an already overflowing run keeps it overflowing.
proof fn lemma_digits_value_monotone_step(s: Seq<char>, i: int, j: int)
    requires
        0 <= i <= j < s.len(),
        forall|m: int| i <= m < j ==> is_digit_char(#[trigger] s[m]),
        is_digit_char(s[j]),
        digits_value(s, i, j) > u64::MAX,
    ensures
        digits_value(s, i, j + 1) > u64::MAX,
{
    lemma_digits_value_nonneg(s, i, j);
    assert(digits_value(s, i, j + 1) == digits_value(s, i, j) * 10 + digit_val(s[j]));
}

/// Exec test for [`is_space_char`].
fn is_space(c: char) -> (r: bool)
    ensures
        r == is_space_char(c),
{
    let u: u32 = c as u32;
    (9 <= u && u <= 13) || u == 32 || u == 0x85 || u == 0xA0 || u == 0x1680 || (0x2000 <= u && u
        <= 0x200A) || u == 0x2028 || u == 0x2029 || u == 0x202F || u == 0x205F || u == 0x3000
}

/// Exec test for [`is_digit_char`].
fn is_digit(c: char) -> (r: bool)
    ensures
        r == is_digit_char(c),
{
    '0' <= c && c <= '9'
}

/// Exec test for [`is_unit_char`].
fn is_unit(c: char) -> (r: bool)
    ensures
        r == is_unit_char(c),
{
    ('a' <= c && c <= 'z') || ('A' <= c && c <= 'Z')
}

/// Numeric value of a digit character.
fn digit_to_u64(c: char) -> (r: u64)
    requires
        is_digit_char(c),
    ensures
        r == digit_val(c),
{
    (c as u32 - '0' as u32) as u64
}

/// Multiplier of the unit spelled by `s[from..to)`.
fn lookup_unit(s: &str, from: usize, to: usize) -> (r: Option<u64>)
    requires
        from <= to <= s@.len(),
    ensures
        r == unit_multiplier(s@.subrange(from as int, to as int)),
{
    let n: usize = to - from;
    if n == 0 {
        Some(1000)
    } else if n == 1 {
        let c0 = s.get_char(from);
        if c0 == 's' {
            Some(1000)
        } else if c0 == 'h' {
            Some(3600000)
        } else if c0 == 'd' {
            Some(86400000)
        } else {
            None
        }
    } else if n == 2 {
        let c0 = s.get_char(from);
        let c1 = s.get_char(from + 1);
        if c0 == 'm' && c1 == 's' {
            Some(1)
        } else {
            None
        }
    } else if n == 3 {
        let c0 = s.get_char(from);
        let c1 = s.get_char(from + 1);
        let c2 = s.get_char(from + 2);
        if c0 == 'm' && c1 == 'i' && c2 == 'n' {
            Some(60000)
        } else {
            None
        }
    } else {
        None
    }
}

} // verus!
