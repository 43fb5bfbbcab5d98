//! Lines of text made of words, switches and numbers.
use vstd::prelude::*;

verus! {

/// How a switch is shown.
pub open spec fn bool_text(value: bool) -> Seq<char> {
    if value {
        "true"@
    } else {
        "false"@
    }
}

/// One decimal digit.
pub open spec fn digit_text(digit: nat) -> Seq<char> {
    if digit == 0 {
        "0"@
    } else if digit == 1 {
        "1"@
    } else if digit == 2 {
        "2"@
    } else if digit == 3 {
        "3"@
    } else if digit == 4 {
        "4"@
    } else if digit == 5 {
        "5"@
    } else if digit == 6 {
        "6"@
    } else if digit == 7 {
        "7"@
    } else if digit == 8 {
        "8"@
    } else {
        "9"@
    }
}

/// The number in decimal, without leading zeros.
pub open spec fn decimal_text(value: nat) -> Seq<char>
    decreases value,
{
    if value < 10 {
        digit_text(value)
    } else {
        decimal_text(value / 10) + digit_text(value % 10)
    }
}

/// The number in decimal, with a sign where it is negative.
pub open spec fn signed_text(value: int) -> Seq<char> {
    if value < 0 {
        "-"@ + decimal_text((-value) as nat)
    } else {
        decimal_text(value as nat)
    }
}

pub fn show_bool(value: bool) -> (result: &'static str)
    ensures
        result@ == bool_text(value),
{
    if value {
        "true"
    } else {
        "false"
    }
}

fn show_digit(digit: u64) -> (result: &'static str)
    requires
        digit < 10,
    ensures
        result@ == digit_text(digit as nat),
{
    match digit {
        0 => "0",
        1 => "1",
        2 => "2",
        3 => "3",
        4 => "4",
        5 => "5",
        6 => "6",
        7 => "7",
        8 => "8",
        _ => "9",
    }
}

pub fn show_decimal(value: u64) -> (result: String)
    ensures
        result@ == decimal_text(value as nat),
    decreases value,
{
    if value < 10 {
        String::from_str(show_digit(value))
    } else {
        let mut result = show_decimal(value / 10);
        result.append(show_digit(value % 10));
        result
    }
}

pub fn show_signed(value: i32) -> (result: String)
    ensures
        result@ == signed_text(value as int),
{
    if value < 0 {
        let magnitude: u64 = (-(value as i64)) as u64;
        let mut result = String::from_str("-");
        result.append(show_decimal(magnitude).as_str());
        result
    } else {
        show_decimal(value as u64)
    }
}

/// The line that two pieces make.
pub fn joined(head: &str, tail: &str) -> (result: String)
    ensures
        result@ == head@ + tail@,
{
    let mut result = String::from_str(head);
    result.append(tail);
    result
}

/// Adds a line to a text.
pub fn push_line(lines: &mut Vec<String>, line: String)
    ensures
        final(lines).deep_view() == old(lines).deep_view().push(line@),
{
    lines.push(line);
    assert(lines.deep_view() =~= old(lines).deep_view().push(line@));
}

} // verus!
