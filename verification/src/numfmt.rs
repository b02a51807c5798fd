//! Rendering numbers as decimal and fixed-width hexadecimal text.
//!
//! The disassembly layer appends immediates and offsets to the strings it
//! builds; these helpers give that rendering an exact specification as a
//! sequence of characters.

use vstd::prelude::*;
use vstd::string::StringExecFns;

verus! {

/// The decimal digit character of a value below ten.
pub open spec fn spec_dec_digit(d: u64) -> Seq<char> {
    if d == 0 {
        "0"@
    } else if d == 1 {
        "1"@
    } else if d == 2 {
        "2"@
    } else if d == 3 {
        "3"@
    } else if d == 4 {
        "4"@
    } else if d == 5 {
        "5"@
    } else if d == 6 {
        "6"@
    } else if d == 7 {
        "7"@
    } else if d == 8 {
        "8"@
    } else {
        "9"@
    }
}

/// The decimal rendering of an unsigned value, most significant digit first,
/// with no leading zeroes (zero itself prints one digit).
pub open spec fn spec_dec(n: u64) -> Seq<char>
    decreases n,
{
    if n < 10 {
        spec_dec_digit(n)
    } else {
        spec_dec(n / 10) + spec_dec_digit(n % 10)
    }
}

/// The decimal rendering of a signed value: a minus sign before the digits of
/// its magnitude.
pub open spec fn spec_dec_int(v: int) -> Seq<char> {
    if v < 0 {
        "-"@ + spec_dec((-v) as u64)
    } else {
        spec_dec(v as u64)
    }
}

/// The lower-case hexadecimal digit character of a value below sixteen.
pub open spec fn spec_hex_digit(d: u32) -> Seq<char> {
    if d == 0 {
        "0"@
    } else if d == 1 {
        "1"@
    } else if d == 2 {
        "2"@
    } else if d == 3 {
        "3"@
    } else if d == 4 {
        "4"@
    } else if d == 5 {
        "5"@
    } else if d == 6 {
        "6"@
    } else if d == 7 {
        "7"@
    } else if d == 8 {
        "8"@
    } else if d == 9 {
        "9"@
    } else if d == 10 {
        "a"@
    } else if d == 11 {
        "b"@
    } else if d == 12 {
        "c"@
    } else if d == 13 {
        "d"@
    } else if d == 14 {
        "e"@
    } else {
        "f"@
    }
}

/// The zero-padded hexadecimal rendering of the low `width` nibbles of a
/// value, most significant nibble first.
pub open spec fn spec_hex(n: u32, width: nat) -> Seq<char>
    decreases width,
{
    if width == 0 {
        Seq::<char>::empty()
    } else {
        spec_hex(n / 16, (width - 1) as nat) + spec_hex_digit(n % 16)
    }
}

/// Append one decimal digit.
fn push_dec_digit(s: &mut String, d: u64)
    requires
        d < 10,
    ensures
        final(s)@ == old(s)@ + spec_dec_digit(d),
{
    match d {
        0 => s.append("0"),
        1 => s.append("1"),
        2 => s.append("2"),
        3 => s.append("3"),
        4 => s.append("4"),
        5 => s.append("5"),
        6 => s.append("6"),
        7 => s.append("7"),
        8 => s.append("8"),
        _ => s.append("9"),
    }
}

/// Append the decimal rendering of an unsigned value.
pub fn push_dec(s: &mut String, n: u64)
    ensures
        final(s)@ == old(s)@ + spec_dec(n),
    decreases n,
{
    if n < 10 {
        push_dec_digit(s, n);
    } else {
        push_dec(s, n / 10);
        push_dec_digit(s, n % 10);
        proof {
            assert(s@ =~= old(s)@ + spec_dec(n));
        }
    }
}

/// Append the decimal rendering of a signed value.
pub fn push_dec_i64(s: &mut String, v: i64)
    requires
        v > i64::MIN,
    ensures
        final(s)@ == old(s)@ + spec_dec_int(v as int),
{
    if v < 0 {
        s.append("-");
        push_dec(s, (-v) as u64);
        proof {
            assert(s@ =~= old(s)@ + spec_dec_int(v as int));
        }
    } else {
        push_dec(s, v as u64);
    }
}

/// Append one hexadecimal digit.
fn push_hex_digit(s: &mut String, d: u32)
    requires
        d < 16,
    ensures
        final(s)@ == old(s)@ + spec_hex_digit(d),
{
    match d {
        0 => s.append("0"),
        1 => s.append("1"),
        2 => s.append("2"),
        3 => s.append("3"),
        4 => s.append("4"),
        5 => s.append("5"),
        6 => s.append("6"),
        7 => s.append("7"),
        8 => s.append("8"),
        9 => s.append("9"),
        10 => s.append("a"),
        11 => s.append("b"),
        12 => s.append("c"),
        13 => s.append("d"),
        14 => s.append("e"),
        _ => s.append("f"),
    }
}

/// Append the zero-padded hexadecimal rendering of the low `width` nibbles.
pub fn push_hex(s: &mut String, n: u32, width: u32)
    ensures
        final(s)@ == old(s)@ + spec_hex(n, width as nat),
    decreases width,
{
    if width == 0 {
        return ;
    }
    push_hex(s, n / 16, width - 1);
    push_hex_digit(s, n % 16);
    proof {
        assert(s@ =~= old(s)@ + spec_hex(n, width as nat));
    }
}


/// The hexadecimal rendering of a value with no fixed nibble count: at least
/// `minw` digits, zero-padded, and as many more as the value needs.
pub open spec fn spec_hex_min(n: u64, minw: int) -> Seq<char>
    decreases n, minw,
{
    if n < 16 && minw <= 1 {
        spec_hex_digit((n % 16) as u32)
    } else {
        spec_hex_min(n / 16, if minw <= 1 { 0 } else { minw - 1 }) + spec_hex_digit(
            (n % 16) as u32,
        )
    }
}

/// Append the hexadecimal rendering of a value, zero-padded to at least
/// `minw` digits.
pub fn push_hex_min(s: &mut String, n: u64, minw: u32)
    ensures
        final(s)@ == old(s)@ + spec_hex_min(n, minw as int),
    decreases n, minw,
{
    if n < 16 && minw <= 1 {
        push_hex_digit(s, (n % 16) as u32);
    } else {
        if minw <= 1 {
            push_hex_min(s, n / 16, 0);
        } else {
            push_hex_min(s, n / 16, minw - 1);
        }
        push_hex_digit(s, (n % 16) as u32);
        proof {
            assert(s@ =~= old(s)@ + spec_hex_min(n, minw as int));
        }
    }
}

} // verus!
