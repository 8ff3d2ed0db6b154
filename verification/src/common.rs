//! The semantic decider: splits the candidate at the separator position the
//! grammar admits, checks that both pieces are all digits, and compares the
//! numeric hour and minute values against their bounds.

use crate::grammar::{digit_val, is_digit, valid_time_spec};
use vstd::prelude::*;
use vstd::string::StrSliceExecFns;

verus! {

/// Range-checked test for an ASCII decimal digit character.
fn digit_check(c: char) -> (r: bool)
    ensures
        r == is_digit(c),
{
    c == '0' || c == '1' || c == '2' || c == '3' || c == '4' || c == '5' || c == '6' || c == '7'
        || c == '8' || c == '9'
}

/// Numeric value of a digit character, by explicit dispatch rather than
/// character arithmetic.
fn digit_value(c: char) -> (v: u8)
    requires
        is_digit(c),
    ensures
        v as int == digit_val(c),
{
    if c == '0' {
        0
    } else if c == '1' {
        1
    } else if c == '2' {
        2
    } else if c == '3' {
        3
    } else if c == '4' {
        4
    } else if c == '5' {
        5
    } else if c == '6' {
        6
    } else if c == '7' {
        7
    } else if c == '8' {
        8
    } else {
        9
    }
}

/// Decides whether `string` is a valid `H:MM` or `HH:MM` timestamp by direct
/// semantic checks: the grammar admits only a separator after one or two hour
/// digits and exactly two minute digits, so the split positions are fixed by
/// the length; the pieces must be all digits and the parsed hour and minute
/// must be below 24 and 60.
pub fn valid_time(string: &str) -> (r: bool)
    ensures
        r == valid_time_spec(string@),
{
    let n = string.unicode_len();
    if n == 4 {
        let h = string.get_char(0);
        let sep = string.get_char(1);
        let m1 = string.get_char(2);
        let m2 = string.get_char(3);
        if digit_check(h) && sep == ':' && digit_check(m1) && digit_check(m2) {
            let hour: u32 = digit_value(h) as u32;
            let minute: u32 = 10 * (digit_value(m1) as u32) + (digit_value(m2) as u32);
            hour < 24 && minute < 60
        } else {
            false
        }
    } else if n == 5 {
        let h1 = string.get_char(0);
        let h2 = string.get_char(1);
        let sep = string.get_char(2);
        let m1 = string.get_char(3);
        let m2 = string.get_char(4);
        if digit_check(h1) && digit_check(h2) && sep == ':' && digit_check(m1) && digit_check(m2) {
            let hour: u32 = 10 * (digit_value(h1) as u32) + (digit_value(h2) as u32);
            let minute: u32 = 10 * (digit_value(m1) as u32) + (digit_value(m2) as u32);
            hour < 24 && minute < 60
        } else {
            false
        }
    } else {
        false
    }
}

} // verus!
