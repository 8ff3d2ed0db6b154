//! The clock grammar `H:MM | HH:MM`, written out as specification functions.
//!
//! A string is a valid timestamp when it consists of a one- or two-digit hour
//! whose value is at most 23, one `:` separator, and an exactly two-digit
//! minute whose value is at most 59, with no surrounding characters. Both
//! deciders of this crate promise to return exactly this predicate.

use vstd::prelude::*;

verus! {

/// `c` is one of the ten ASCII decimal digit characters.
pub open spec fn is_digit(c: char) -> bool {
    c == '0' || c == '1' || c == '2' || c == '3' || c == '4' || c == '5' || c == '6' || c == '7'
        || c == '8' || c == '9'
}

/// The numeric value of a decimal digit character (9 for anything else, but it
/// is only ever applied under `is_digit`).
pub open spec fn digit_val(c: char) -> int {
    if c == '0' {
        0
    } else if c == '1' {
        1
    } else if c == '2' {
        2
    } else if c == '3' {
        3
    } else if c == '4' {
        4
    } else if c == '5' {
        5
    } else if c == '6' {
        6
    } else if c == '7' {
        7
    } else if c == '8' {
        8
    } else {
        9
    }
}

/// Two digit characters form a valid two-digit hour: a value in 0..=23.
pub open spec fn hour2_ok(tens: char, ones: char) -> bool {
    is_digit(tens) && is_digit(ones) && 10 * digit_val(tens) + digit_val(ones) <= 23
}

/// Two digit characters form a valid minute: exactly two digits, value in 0..=59.
pub open spec fn minute_ok(tens: char, ones: char) -> bool {
    is_digit(tens) && is_digit(ones) && 10 * digit_val(tens) + digit_val(ones) <= 59
}

/// The whole grammar: `H:MM` (a one-digit hour is always in range) or `HH:MM`
/// with the hour value at most 23; the minute is always exactly two digits
/// with value at most 59; no leading or trailing characters.
pub open spec fn valid_time_spec(s: Seq<char>) -> bool {
    ||| (s.len() == 4 && is_digit(s[0]) && s[1] == ':' && minute_ok(s[2], s[3]))
    ||| (s.len() == 5 && hour2_ok(s[0], s[1]) && s[2] == ':' && minute_ok(s[3], s[4]))
}

} // verus!
