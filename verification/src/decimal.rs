//! Decimal text for fixed-point numbers.
//!
//! A number is given as a sign, a whole part and a fractional part of a fixed
//! width (`frac` out of `10^width`). Its text is the shortest decimal that
//! names it: no leading zeros, no trailing zeros behind the point, and no
//! point when the fraction is zero.

use vstd::prelude::*;

verus! {

/// `String::push` appends one character at the end of the string and leaves
/// what was there before in place.
pub assume_specification[ String::push ](s: &mut String, ch: char)
    ensures
        final(s)@ == old(s)@.push(ch),
;

/// The character of one decimal digit.
pub open spec fn digit_char(d: nat) -> char
    recommends
        d < 10,
{
    if d == 0 {
        '0'
    } else if d == 1 {
        '1'
    } else if d == 2 {
        '2'
    } else if d == 3 {
        '3'
    } else if d == 4 {
        '4'
    } else if d == 5 {
        '5'
    } else if d == 6 {
        '6'
    } else if d == 7 {
        '7'
    } else if d == 8 {
        '8'
    } else {
        '9'
    }
}

/// The digits of `n` without leading zeros; `0` is the single digit `0`.
pub open spec fn digits(n: nat) -> Seq<char>
    decreases n,
{
    if n < 10 {
        seq![digit_char(n)]
    } else {
        digits(n / 10).push(digit_char(n % 10))
    }
}

/// The last `width` digits of `f`, with leading zeros kept.
pub open spec fn padded(f: nat, width: nat) -> Seq<char>
    decreases width,
{
    if width == 0 {
        Seq::empty()
    } else {
        padded(f / 10, (width - 1) as nat).push(digit_char(f % 10))
    }
}

/// `padded(f, width)` without its trailing zeros.
pub open spec fn trimmed(f: nat, width: nat) -> Seq<char>
    decreases width,
{
    if width == 0 {
        Seq::empty()
    } else if f % 10 == 0 {
        trimmed(f / 10, (width - 1) as nat)
    } else {
        padded(f, width)
    }
}

/// The text of the number `whole + frac / 10^width`, negated if `negative`.
pub open spec fn decimal_text(negative: bool, whole: nat, frac: nat, width: nat) -> Seq<char> {
    let sign = if negative {
        seq!['-']
    } else {
        Seq::empty()
    };
    let tail = trimmed(frac, width);
    if tail.len() == 0 {
        sign + digits(whole)
    } else {
        sign + digits(whole) + seq!['.'] + tail
    }
}

/// The character of the digit `d`.
fn digit_to_char(d: u8) -> (c: char)
    requires
        d < 10,
    ensures
        c == digit_char(d as nat),
{
    match d {
        0 => '0',
        1 => '1',
        2 => '2',
        3 => '3',
        4 => '4',
        5 => '5',
        6 => '6',
        7 => '7',
        8 => '8',
        _ => '9',
    }
}

/// Appends the digits of `n` to `out`.
pub fn push_digits(out: &mut String, n: u64)
    ensures
        final(out)@ == old(out)@ + digits(n as nat),
    decreases n,
{
    if n >= 10 {
        push_digits(out, n / 10);
    }
    out.push(digit_to_char((n % 10) as u8));
}

/// Appends the last `width` digits of `f` to `out`, leading zeros included.
pub fn push_padded(out: &mut String, f: u64, width: u32)
    ensures
        final(out)@ == old(out)@ + padded(f as nat, width as nat),
    decreases width,
{
    if width > 0 {
        push_padded(out, f / 10, width - 1);
        out.push(digit_to_char((f % 10) as u8));
    }
}

/// Appends the text of `whole + frac / 10^width`, negated if `negative`.
pub fn push_decimal(out: &mut String, negative: bool, whole: u64, frac: u64, width: u32)
    ensures
        final(out)@ == old(out)@ + decimal_text(negative, whole as nat, frac as nat, width as nat),
{
    if negative {
        out.push('-');
    }
    push_digits(out, whole);
    let mut f: u64 = frac;
    let mut w: u32 = width;
    while w > 0 && f % 10 == 0
        invariant
            trimmed(f as nat, w as nat) == trimmed(frac as nat, width as nat),
        decreases w,
    {
        f = f / 10;
        w = w - 1;
    }
    if w > 0 {
        out.push('.');
        push_padded(out, f, w);
    }
}

/// The text of `whole + frac / 10^width`, negated if `negative`.
pub fn format_decimal(negative: bool, whole: u64, frac: u64, width: u32) -> (text: String)
    ensures
        text@ == decimal_text(negative, whole as nat, frac as nat, width as nat),
{
    let mut text = String::new();
    push_decimal(&mut text, negative, whole, frac, width);
    text
}

} // verus!
