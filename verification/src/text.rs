//! Verified text rendering: hexadecimal and decimal digits, two- and
//! four-digit hex fields, and space-padded decimal fields, used by the
//! disassembler and the trace formatter.

use vstd::prelude::*;

verus! {

/// The lower-case hexadecimal digit for a value below 16.
pub open spec fn spec_hex_lower(n: u8) -> Seq<char> {
    if n == 0 {
        "0"@
    } else if n == 1 {
        "1"@
    } else if n == 2 {
        "2"@
    } else if n == 3 {
        "3"@
    } else if n == 4 {
        "4"@
    } else if n == 5 {
        "5"@
    } else if n == 6 {
        "6"@
    } else if n == 7 {
        "7"@
    } else if n == 8 {
        "8"@
    } else if n == 9 {
        "9"@
    } else if n == 10 {
        "a"@
    } else if n == 11 {
        "b"@
    } else if n == 12 {
        "c"@
    } else if n == 13 {
        "d"@
    } else if n == 14 {
        "e"@
    } else {
        "f"@
    }
}

/// The upper-case hexadecimal digit for a value below 16.
pub open spec fn spec_hex_upper(n: u8) -> Seq<char> {
    if n < 10 {
        spec_hex_lower(n)
    } else if n == 10 {
        "A"@
    } else if n == 11 {
        "B"@
    } else if n == 12 {
        "C"@
    } else if n == 13 {
        "D"@
    } else if n == 14 {
        "E"@
    } else {
        "F"@
    }
}

pub fn hex_lower(n: u8) -> (r: &'static str)
    requires
        n < 16,
    ensures
        r@ == spec_hex_lower(n),
{
    if n == 0 {
        "0"
    } else if n == 1 {
        "1"
    } else if n == 2 {
        "2"
    } else if n == 3 {
        "3"
    } else if n == 4 {
        "4"
    } else if n == 5 {
        "5"
    } else if n == 6 {
        "6"
    } else if n == 7 {
        "7"
    } else if n == 8 {
        "8"
    } else if n == 9 {
        "9"
    } else if n == 10 {
        "a"
    } else if n == 11 {
        "b"
    } else if n == 12 {
        "c"
    } else if n == 13 {
        "d"
    } else if n == 14 {
        "e"
    } else {
        "f"
    }
}

pub fn hex_upper(n: u8) -> (r: &'static str)
    requires
        n < 16,
    ensures
        r@ == spec_hex_upper(n),
{
    if n < 10 {
        hex_lower(n)
    } else if n == 10 {
        "A"
    } else if n == 11 {
        "B"
    } else if n == 12 {
        "C"
    } else if n == 13 {
        "D"
    } else if n == 14 {
        "E"
    } else {
        "F"
    }
}

/// A byte as two lower-case hex digits.
pub open spec fn spec_hex2_lower(b: u8) -> Seq<char> {
    spec_hex_lower(b / 16) + spec_hex_lower(b % 16)
}

/// A byte as two upper-case hex digits.
pub open spec fn spec_hex2_upper(b: u8) -> Seq<char> {
    spec_hex_upper(b / 16) + spec_hex_upper(b % 16)
}

/// A word as four lower-case hex digits.
pub open spec fn spec_hex4_lower(w: u16) -> Seq<char> {
    spec_hex2_lower((w >> 8) as u8) + spec_hex2_lower((w & 0xff) as u8)
}

/// A word as four upper-case hex digits.
pub open spec fn spec_hex4_upper(w: u16) -> Seq<char> {
    spec_hex2_upper((w >> 8) as u8) + spec_hex2_upper((w & 0xff) as u8)
}

pub fn push_hex2_lower(s: &mut String, b: u8)
    ensures
        final(s)@ == old(s)@ + spec_hex2_lower(b),
{
    s.append(hex_lower(b / 16));
    s.append(hex_lower(b % 16));
}

pub fn push_hex2_upper(s: &mut String, b: u8)
    ensures
        final(s)@ == old(s)@ + spec_hex2_upper(b),
{
    s.append(hex_upper(b / 16));
    s.append(hex_upper(b % 16));
}

pub fn push_hex4_lower(s: &mut String, w: u16)
    ensures
        final(s)@ == old(s)@ + spec_hex4_lower(w),
{
    push_hex2_lower(s, (w >> 8) as u8);
    push_hex2_lower(s, (w & 0xff) as u8);
}

pub fn push_hex4_upper(s: &mut String, w: u16)
    ensures
        final(s)@ == old(s)@ + spec_hex4_upper(w),
{
    push_hex2_upper(s, (w >> 8) as u8);
    push_hex2_upper(s, (w & 0xff) as u8);
}

/// A nonnegative integer in decimal, most significant digit first, no
/// leading zeros (a single zero for 0).
pub open spec fn spec_dec(n: int) -> Seq<char>
    decreases n,
{
    if n < 10 {
        spec_hex_lower(if n < 0 {
            0u8
        } else {
            n as u8
        })
    } else {
        spec_dec(n / 10) + spec_hex_lower((n % 10) as u8)
    }
}

pub fn push_dec(s: &mut String, n: usize)
    ensures
        final(s)@ == old(s)@ + spec_dec(n as int),
    decreases n,
{
    if n >= 10 {
        push_dec(s, n / 10);
    }
    s.append(hex_lower((n % 10) as u8));
}

/// A nonnegative integer in decimal, right-aligned in a field of at
/// least three characters, padded with spaces.
pub open spec fn spec_pad3(n: int) -> Seq<char> {
    if n < 10 {
        "  "@ + spec_dec(n)
    } else if n < 100 {
        " "@ + spec_dec(n)
    } else {
        spec_dec(n)
    }
}

pub fn push_pad3(s: &mut String, n: usize)
    ensures
        final(s)@ == old(s)@ + spec_pad3(n as int),
{
    if n < 10 {
        s.append("  ");
    } else if n < 100 {
        s.append(" ");
    }
    push_dec(s, n);
}

} // verus!
