//! Rendering of numbers as text: decimal, signed decimal and hexadecimal.
//!
//! Each executable function returns a `String` whose view equals the
//! corresponding spec-level character sequence, so every textual operand of
//! the disassembly is pinned down character by character.

use vstd::prelude::*;

verus! {

/// The character for one digit value below 16, lower-case for `10..=15`.
pub open spec fn digit_char(d: nat) -> char {
    if d == 0 {
        '0'
    } else if d == 1 {
        '1'
    } else if d == 2 {
        '2'
    } else if d == 3 {
        '3'
    } else if d == 4 {
        '4'
    } else if d == 5 {
        '5'
    } else if d == 6 {
        '6'
    } else if d == 7 {
        '7'
    } else if d == 8 {
        '8'
    } else if d == 9 {
        '9'
    } else if d == 10 {
        'a'
    } else if d == 11 {
        'b'
    } else if d == 12 {
        'c'
    } else if d == 13 {
        'd'
    } else if d == 14 {
        'e'
    } else {
        'f'
    }
}

/// The decimal digits of `n`, most significant first, no leading zeros
/// (except that `0` itself renders as `"0"`).
pub open spec fn dec_digits(n: nat) -> Seq<char>
    decreases n,
{
    if n < 10 {
        seq![digit_char(n)]
    } else {
        dec_digits(n / 10) + seq![digit_char(n % 10)]
    }
}

/// The hexadecimal digits of `n`, most significant first, no leading zeros.
pub open spec fn hex_digits(n: nat) -> Seq<char>
    decreases n,
{
    if n < 16 {
        seq![digit_char(n)]
    } else {
        hex_digits(n / 16) + seq![digit_char(n % 16)]
    }
}

/// The low `width` hexadecimal digits of `n`, zero-padded to `width`.
pub open spec fn hex_fixed(n: nat, width: nat) -> Seq<char>
    decreases width,
{
    if width == 0 {
        Seq::empty()
    } else {
        hex_fixed(n / 16, (width - 1) as nat) + seq![digit_char(n % 16)]
    }
}

/// The rendering of a 32-bit word read as a signed two's-complement value:
/// plain decimal below `0x80000000`, a minus sign and the magnitude above.
pub open spec fn signed_digits(v: u32) -> Seq<char> {
    if v < 0x80000000 {
        dec_digits(v as nat)
    } else {
        "-"@ + dec_digits((0x100000000 - v) as nat)
    }
}

/// The one-character string for a digit value below 16.
pub fn digit_str(d: u32) -> (r: &'static str)
    requires
        d < 16,
    ensures
        r@ =~= seq![digit_char(d as nat)],
{
    if d == 0 {
        proof { reveal_strlit("0"); }
        "0"
    } else if d == 1 {
        proof { reveal_strlit("1"); }
        "1"
    } else if d == 2 {
        proof { reveal_strlit("2"); }
        "2"
    } else if d == 3 {
        proof { reveal_strlit("3"); }
        "3"
    } else if d == 4 {
        proof { reveal_strlit("4"); }
        "4"
    } else if d == 5 {
        proof { reveal_strlit("5"); }
        "5"
    } else if d == 6 {
        proof { reveal_strlit("6"); }
        "6"
    } else if d == 7 {
        proof { reveal_strlit("7"); }
        "7"
    } else if d == 8 {
        proof { reveal_strlit("8"); }
        "8"
    } else if d == 9 {
        proof { reveal_strlit("9"); }
        "9"
    } else if d == 10 {
        proof { reveal_strlit("a"); }
        "a"
    } else if d == 11 {
        proof { reveal_strlit("b"); }
        "b"
    } else if d == 12 {
        proof { reveal_strlit("c"); }
        "c"
    } else if d == 13 {
        proof { reveal_strlit("d"); }
        "d"
    } else if d == 14 {
        proof { reveal_strlit("e"); }
        "e"
    } else {
        proof { reveal_strlit("f"); }
        "f"
    }
}

/// `n` in decimal.
pub fn dec_string(n: u32) -> (r: String)
    ensures
        r@ == dec_digits(n as nat),
    decreases n,
{
    if n < 10 {
        digit_str(n).to_owned()
    } else {
        let mut r = dec_string(n / 10);
        r.append(digit_str(n % 10));
        r
    }
}

/// `n` in hexadecimal, without leading zeros.
pub fn hex_string(n: u32) -> (r: String)
    ensures
        r@ == hex_digits(n as nat),
    decreases n,
{
    if n < 16 {
        digit_str(n).to_owned()
    } else {
        let mut r = hex_string(n / 16);
        r.append(digit_str(n % 16));
        r
    }
}

/// The low `width` hexadecimal digits of `n`, zero-padded.
pub fn hex_fixed_string(n: u32, width: u32) -> (r: String)
    ensures
        r@ == hex_fixed(n as nat, width as nat),
    decreases width,
{
    if width == 0 {
        String::new()
    } else {
        let mut r = hex_fixed_string(n / 16, width - 1);
        r.append(digit_str(n % 16));
        r
    }
}

/// `n` as eight zero-padded hexadecimal digits, the full 32-bit word.
pub fn hex8_string(n: u32) -> (r: String)
    ensures
        r@ == hex_fixed(n as nat, 8),
{
    hex_fixed_string(n, 8)
}

/// The 32-bit word `v` rendered as a signed two's-complement value.
pub fn signed_string(v: u32) -> (r: String)
    ensures
        r@ == signed_digits(v),
{
    if v < 0x80000000 {
        dec_string(v)
    } else {
        let magnitude = (0x100000000u64 - (v as u64)) as u32;
        let mut r = String::from_str("-");
        r.append(dec_string(magnitude).as_str());
        r
    }
}

} // verus!
