//! Building text: hexadecimal digits appended to a `String`.

use vstd::prelude::*;
use vstd::string::StringExecFns;

verus! {

/// `String::push`: appends one character to the end of the string.
pub assume_specification[ String::push ](text: &mut String, ch: char)
    ensures
        final(text)@ == old(text)@.push(ch),
;

/// The lower-case hexadecimal digit for `d`.
pub open spec fn hex_digit(d: int) -> char {
    if d < 10 {
        ('0' as int + d) as char
    } else {
        ('a' as int + d - 10) as char
    }
}

/// `value` as `0x` and one hexadecimal digit.
pub open spec fn hex1(value: int) -> Seq<char> {
    "0x"@.push(hex_digit(value % 16))
}

/// `value` as `0x` and two hexadecimal digits.
pub open spec fn hex2(value: int) -> Seq<char> {
    "0x"@.push(hex_digit(value / 16 % 16)).push(hex_digit(value % 16))
}

/// `value` as `0x` and three hexadecimal digits.
pub open spec fn hex3(value: int) -> Seq<char> {
    "0x"@.push(hex_digit(value / 256 % 16)).push(hex_digit(value / 16 % 16)).push(
        hex_digit(value % 16),
    )
}

/// `value` as four hexadecimal digits.
pub open spec fn digits4(value: int) -> Seq<char> {
    seq![
        hex_digit(value / 4096 % 16),
        hex_digit(value / 256 % 16),
        hex_digit(value / 16 % 16),
        hex_digit(value % 16),
    ]
}

/// `value` as `0x` and four hexadecimal digits.
pub open spec fn hex4(value: int) -> Seq<char> {
    "0x"@ + digits4(value)
}

/// The name of register `x`: `v` and its hexadecimal digit.
pub open spec fn register_name(x: int) -> Seq<char> {
    "v"@.push(hex_digit(x))
}

/// The lower-case hexadecimal digit for `d`.
pub fn hex_digit_of(d: u8) -> (ch: char)
    requires
        d < 16,
    ensures
        ch == hex_digit(d as int),
{
    match d {
        0 => '0',
        1 => '1',
        2 => '2',
        3 => '3',
        4 => '4',
        5 => '5',
        6 => '6',
        7 => '7',
        8 => '8',
        9 => '9',
        10 => 'a',
        11 => 'b',
        12 => 'c',
        13 => 'd',
        14 => 'e',
        _ => 'f',
    }
}

/// Appends the hexadecimal digit of `value` at `place`, where place 0 is
/// the least significant.
fn push_digit(text: &mut String, value: u16, place: u8)
    requires
        place < 4,
    ensures
        place == 0 ==> final(text)@ == old(text)@.push(hex_digit(value as int % 16)),
        place == 1 ==> final(text)@ == old(text)@.push(hex_digit(value as int / 16 % 16)),
        place == 2 ==> final(text)@ == old(text)@.push(hex_digit(value as int / 256 % 16)),
        place == 3 ==> final(text)@ == old(text)@.push(hex_digit(value as int / 4096 % 16)),
{
    let digit = match place {
        0 => value % 16,
        1 => value / 16 % 16,
        2 => value / 256 % 16,
        _ => value / 4096 % 16,
    };
    text.push(hex_digit_of(digit as u8));
}

/// Appends `value` as `0x` and one hexadecimal digit.
pub fn push_hex1(text: &mut String, value: u8)
    ensures
        final(text)@ == old(text)@ + hex1(value as int),
{
    text.append("0x");
    push_digit(text, value as u16, 0);
}

/// Appends `value` as `0x` and two hexadecimal digits.
pub fn push_hex2(text: &mut String, value: u8)
    ensures
        final(text)@ == old(text)@ + hex2(value as int),
{
    text.append("0x");
    push_digit(text, value as u16, 1);
    push_digit(text, value as u16, 0);
}

/// Appends `value` as `0x` and three hexadecimal digits.
pub fn push_hex3(text: &mut String, value: u16)
    ensures
        final(text)@ == old(text)@ + hex3(value as int),
{
    text.append("0x");
    push_digit(text, value, 2);
    push_digit(text, value, 1);
    push_digit(text, value, 0);
}

/// Appends `value` as four hexadecimal digits.
pub fn push_digits4(text: &mut String, value: u16)
    ensures
        final(text)@ == old(text)@ + digits4(value as int),
{
    push_digit(text, value, 3);
    push_digit(text, value, 2);
    push_digit(text, value, 1);
    push_digit(text, value, 0);
}

/// Appends `value` as `0x` and four hexadecimal digits.
pub fn push_hex4(text: &mut String, value: u16)
    ensures
        final(text)@ == old(text)@ + hex4(value as int),
{
    text.append("0x");
    push_digits4(text, value);
}

/// Appends the name of register `x`.
pub fn push_register(text: &mut String, x: u8)
    requires
        x < 16,
    ensures
        final(text)@ == old(text)@ + register_name(x as int),
{
    text.append("v");
    text.push(hex_digit_of(x));
}

} // verus!
