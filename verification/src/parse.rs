//! Reading a 32-bit word from text with an optional radix prefix.
//!
//! A literal starting `0x`, `0o` or `0b` is read as hexadecimal, octal or
//! binary; anything else is read as decimal. After the prefix one optional
//! plus sign and then at least one digit of the selected radix must follow,
//! and the value must fit in 32 bits; otherwise nothing is returned.

use vstd::prelude::*;

verus! {

/// The numeric value of `c` as a digit: `0..=9` for the decimal digits
/// (code points 48 to 57), `10..=35` for letters of either case (97 to 122
/// and 65 to 90), and `-1` for any other character.
pub open spec fn digit_value(c: char) -> int {
    let cu = c as u32;
    if 48 <= cu && cu <= 57 {
        cu - 48
    } else if 97 <= cu && cu <= 122 {
        cu - 97 + 10
    } else if 65 <= cu && cu <= 90 {
        cu - 65 + 10
    } else {
        -1
    }
}

/// Whether `c` is a digit of the given radix.
pub open spec fn is_digit(c: char, radix: int) -> bool {
    0 <= digit_value(c) < radix
}

/// Whether `s` is a non-empty run of digits of the given radix.
pub open spec fn all_digits(s: Seq<char>, radix: int) -> bool {
    s.len() > 0 && (forall|i: int| 0 <= i < s.len() ==> is_digit(s[i], radix))
}

/// The number that the digit run `s` denotes in the given radix, most
/// significant digit first.
pub open spec fn numeral_value(s: Seq<char>, radix: int) -> int
    decreases s.len(),
{
    if s.len() == 0 {
        0
    } else {
        numeral_value(s.drop_last(), radix) * radix + digit_value(s.last())
    }
}

/// `s` with one leading plus sign removed, if present.
pub open spec fn strip_sign(s: Seq<char>) -> Seq<char> {
    if s.len() >= 1 && s[0] == '+' {
        s.skip(1)
    } else {
        s
    }
}

/// The radix selected by the prefix of `s`, and the rest of `s` after it.
pub open spec fn split_radix(s: Seq<char>) -> (int, Seq<char>) {
    if s.len() >= 2 && s[0] == '0' {
        if s[1] == 'x' {
            (16, s.skip(2))
        } else if s[1] == 'o' {
            (8, s.skip(2))
        } else if s[1] == 'b' {
            (2, s.skip(2))
        } else {
            (10, s)
        }
    } else {
        (10, s)
    }
}

/// What a run of digits (with one optional leading plus sign) denotes as a
/// 32-bit word: nothing if a character is no digit of the radix, the run is
/// empty, or the value does not fit.
pub open spec fn spec_parse_digits(s: Seq<char>, radix: int) -> Option<u32> {
    let digits = strip_sign(s);
    if all_digits(digits, radix) && numeral_value(digits, radix) < 0x100000000 {
        Some(numeral_value(digits, radix) as u32)
    } else {
        None
    }
}

/// What a radix-prefixed literal denotes as a 32-bit word.
pub open spec fn spec_u32_from_str_prefix(s: Seq<char>) -> Option<u32> {
    let (radix, rest) = split_radix(s);
    spec_parse_digits(rest, radix)
}

/// A digit run denotes at least zero.
proof fn lemma_numeral_nonneg(s: Seq<char>, radix: int)
    requires
        radix >= 2,
        forall|i: int| 0 <= i < s.len() ==> is_digit(s[i], radix),
    ensures
        numeral_value(s, radix) >= 0,
    decreases s.len(),
{
    if s.len() > 0 {
        lemma_numeral_nonneg(s.drop_last(), radix);
    }
}

/// A digit run denotes at least what any of its prefixes denotes: appending
/// digits never makes the number smaller.
proof fn lemma_numeral_prefix_le(s: Seq<char>, radix: int, n: int)
    requires
        radix >= 2,
        0 <= n <= s.len(),
        forall|i: int| 0 <= i < s.len() ==> is_digit(s[i], radix),
    ensures
        numeral_value(s.take(n), radix) <= numeral_value(s, radix),
    decreases s.len(),
{
    if n < s.len() {
        lemma_numeral_nonneg(s.drop_last(), radix);
        assert(s.drop_last().take(n) =~= s.take(n));
        lemma_numeral_prefix_le(s.drop_last(), radix, n);
        assert(numeral_value(s.drop_last(), radix) * radix >= numeral_value(s.drop_last(), radix))
            by (nonlinear_arith)
            requires
                radix >= 2,
                numeral_value(s.drop_last(), radix) >= 0,
        ;
    } else {
        assert(s.take(n) =~= s);
    }
}

/// Read a run of digits of `radix` from the characters of `s` starting at
/// `from`, with one optional leading plus sign.
fn parse_digits(s: &str, from: usize, radix: u32) -> (r: Option<u32>)
    requires
        2 <= radix <= 36,
        from <= s@.len(),
    ensures
        r == spec_parse_digits(s@.skip(from as int), radix as int),
{
    let ghost whole = s@.skip(from as int);
    let len = s.unicode_len();
    let start = if from < len && s.get_char(from) == '+' {
        from + 1
    } else {
        from
    };
    let ghost digits = s@.skip(start as int);
    proof {
        assert(strip_sign(whole) =~= digits);
    }
    if start == len {
        // no digits at all
        return None;
    }
    let mut i = start;
    let mut acc: u32 = 0;
    while i < len
        invariant
            start <= i <= len,
            len == s@.len(),
            2 <= radix <= 36,
            whole == s@.skip(from as int),
            digits == s@.skip(start as int),
            digits == strip_sign(whole),
            forall|k: int| 0 <= k < i - start ==> is_digit(digits[k], radix as int),
            acc == numeral_value(digits.take(i - start), radix as int),
        decreases len - i,
    {
        let c = s.get_char(i);
        proof {
            assert(digits[i - start] == s@[i as int]);
        }
        let cu = c as u32;
        let d: u32 = if cu >= 48 && cu <= 57 {
            cu - 48
        } else if cu >= 97 && cu <= 122 {
            cu - 97 + 10
        } else if cu >= 65 && cu <= 90 {
            cu - 65 + 10
        } else {
            // not a digit of any radix
            proof {
                assert(!is_digit(digits[i - start], radix as int));
            }
            return None;
        };
        if d >= radix {
            // not a digit of this radix
            proof {
                assert(digit_value(digits[i - start]) == d);
                assert(!is_digit(digits[i - start], radix as int));
            }
            return None;
        }
        proof {
            assert((acc as int) * (radix as int) <= 0xffffffff * 36) by (nonlinear_arith)
                requires
                    0 <= acc <= 0xffffffff,
                    2 <= radix <= 36,
            ;
        }
        let wide: u64 = (acc as u64) * (radix as u64) + (d as u64);
        proof {
            assert(digit_value(digits[i - start]) == d);
            assert(digits.take(i - start + 1).drop_last() =~= digits.take(i - start));
            assert(digits.take(i - start + 1).last() == digits[i - start]);
            assert(numeral_value(digits.take(i - start + 1), radix as int) == wide);
        }
        if wide > 0xffffffff {
            // the numeral does not fit in 32 bits, whatever follows
            proof {
                if all_digits(digits, radix as int) {
                    lemma_numeral_prefix_le(digits, radix as int, i - start + 1);
                    assert(digits.take(digits.len() as int) =~= digits);
                    assert(numeral_value(digits, radix as int) >= wide);
                }
            }
            return None;
        }
        acc = wide as u32;
        i = i + 1;
    }
    proof {
        assert(digits.take(i - start) =~= digits);
    }
    Some(acc)
}

/// Read a 32-bit word from `string`: a `0x`, `0o` or `0b` prefix selects
/// hexadecimal, octal or binary, anything else is decimal. Returns nothing
/// when what follows the prefix is not a numeral of that radix fitting in 32
/// bits.
pub fn u32_from_str_prefix(string: &str) -> (r: Option<u32>)
    ensures
        r == spec_u32_from_str_prefix(string@),
{
    let len = string.unicode_len();
    if len >= 2 && string.get_char(0) == '0' {
        let c1 = string.get_char(1);
        if c1 == 'x' {
            parse_digits(string, 2, 16)
        } else if c1 == 'o' {
            parse_digits(string, 2, 8)
        } else if c1 == 'b' {
            parse_digits(string, 2, 2)
        } else {
            proof {
                assert(string@.skip(0) =~= string@);
            }
            parse_digits(string, 0, 10)
        }
    } else {
        proof {
            assert(string@.skip(0) =~= string@);
        }
        parse_digits(string, 0, 10)
    }
}

} // verus!
