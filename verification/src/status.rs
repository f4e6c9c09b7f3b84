//! The status text that is logged when a setting changes.

use vstd::prelude::*;
use vstd::string::*;

verus! {

/// The character of a decimal digit.
pub open spec fn digit(d: int) -> char {
    if d == 0 {
        '0'
    } else if d == 1 {
        '1'
    } else if d == 2 {
        '2'
    } else if d == 3 {
        '3'
    } else if d == 4 {
        '4'
    } else if d == 5 {
        '5'
    } else if d == 6 {
        '6'
    } else if d == 7 {
        '7'
    } else if d == 8 {
        '8'
    } else {
        '9'
    }
}

/// A number in decimal, without leading zeros.
pub open spec fn decimal(n: nat) -> Seq<char>
    decreases n,
{
    if n < 10 {
        seq![digit(n as int)]
    } else {
        decimal(n / 10).push(digit((n % 10) as int))
    }
}

/// One line of the status: a name, a colon, a space, a value and a line feed.
pub open spec fn status_line(name: Seq<char>, value: nat) -> Seq<char> {
    name + ": "@ + decimal(value) + "\n"@
}

/// The status: an empty line, a line for each channel in the order red,
/// green, blue, and a line for the frame rate.
pub open spec fn status_text(levels: [u32; 3], frame_rate: u64) -> Seq<char> {
    "\n"@ + status_line("red"@, levels[0] as nat) + status_line("green"@, levels[1] as nat)
        + status_line("blue"@, levels[2] as nat) + status_line("frame rate"@, frame_rate as nat)
}

fn digit_str(d: u64) -> (s: &'static str)
    requires
        d < 10,
    ensures
        s@ == seq![digit(d as int)],
{
    proof {
        reveal_strlit("0");
        reveal_strlit("1");
        reveal_strlit("2");
        reveal_strlit("3");
        reveal_strlit("4");
        reveal_strlit("5");
        reveal_strlit("6");
        reveal_strlit("7");
        reveal_strlit("8");
        reveal_strlit("9");
    }
    let s = if d == 0 {
        "0"
    } else if d == 1 {
        "1"
    } else if d == 2 {
        "2"
    } else if d == 3 {
        "3"
    } else if d == 4 {
        "4"
    } else if d == 5 {
        "5"
    } else if d == 6 {
        "6"
    } else if d == 7 {
        "7"
    } else if d == 8 {
        "8"
    } else {
        "9"
    };
    assert(s@ =~= seq![digit(d as int)]);
    s
}

/// Appends a number in decimal to a text.
pub fn push_decimal(text: &mut String, n: u64)
    ensures
        final(text)@ == old(text)@ + decimal(n as nat),
    decreases n,
{
    if n >= 10 {
        push_decimal(text, n / 10);
    }
    text.append(digit_str(n % 10));
    assert(text@ =~= old(text)@ + decimal(n as nat));
}

/// Appends one line of the status to a text.
pub fn push_status_line(text: &mut String, name: &str, value: u64)
    ensures
        final(text)@ == old(text)@ + status_line(name@, value as nat),
{
    text.append(name);
    text.append(": ");
    push_decimal(text, value);
    text.append("\n");
    assert(text@ =~= old(text)@ + status_line(name@, value as nat));
}

/// Writes out the status of the levels and the frame rate given.
pub fn format_status(levels: &[u32; 3], frame_rate: u64) -> (text: String)
    ensures
        text@ == status_text(*levels, frame_rate),
{
    let mut text = String::new();
    text.append("\n");
    push_status_line(&mut text, "red", levels[0] as u64);
    push_status_line(&mut text, "green", levels[1] as u64);
    push_status_line(&mut text, "blue", levels[2] as u64);
    push_status_line(&mut text, "frame rate", frame_rate);
    assert(text@ =~= status_text(*levels, frame_rate));
    text
}

} // verus!
