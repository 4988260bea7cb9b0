//! Numerals: a byte count written in decimal, hexadecimal, octal or binary.
//!
//! A numeral that starts with `0x` or `0X` is hexadecimal, one that starts
//! with `0b` or `0B` is binary, any other with a leading `0` and more
//! characters behind it is octal, and every other is decimal. After the
//! prefix stands at least one digit and nothing but digits; hexadecimal
//! digits may be of either case. There is no sign.

use vstd::prelude::*;
use vstd::string::*;

verus! {

/// The number that `c` stands for as a digit of any base up to sixteen;
/// sixteen itself for a character that is no digit.
pub open spec fn digit_of(c: char) -> int {
    if '0' <= c <= '9' {
        c as int - 48
    } else if 'a' <= c <= 'f' {
        c as int - 87
    } else if 'A' <= c <= 'F' {
        c as int - 55
    } else {
        16
    }
}

/// Whether every character of `s` is a digit of base `radix`.
pub open spec fn all_digits(s: Seq<char>, radix: int) -> bool {
    forall|i: int| 0 <= i < s.len() ==> digit_of(#[trigger] s[i]) < radix
}

/// The number that the digits `s` spell in base `radix`, most significant
/// digit first.
pub open spec fn digits_value(s: Seq<char>, radix: int) -> int
    decreases s.len(),
{
    if s.len() == 0 {
        0
    } else {
        digits_value(s.drop_last(), radix) * radix + digit_of(s.last())
    }
}

/// Whether `s` starts with `0` and one of the two given letters.
pub open spec fn has_prefix(s: Seq<char>, lower: char, upper: char) -> bool {
    s.len() >= 2 && s[0] == '0' && (s[1] == lower || s[1] == upper)
}

/// The base that the prefix of `s` announces.
pub open spec fn radix_of(s: Seq<char>) -> int {
    if has_prefix(s, 'x', 'X') {
        16
    } else if has_prefix(s, 'b', 'B') {
        2
    } else if s.len() >= 2 && s[0] == '0' {
        8
    } else {
        10
    }
}

/// How many characters the prefix of `s` takes.
pub open spec fn prefix_len(s: Seq<char>) -> int {
    if has_prefix(s, 'x', 'X') || has_prefix(s, 'b', 'B') {
        2
    } else if s.len() >= 2 && s[0] == '0' {
        1
    } else {
        0
    }
}

/// The number that `s` spells, if `s` is a numeral.
pub open spec fn numeral(s: Seq<char>) -> Option<int> {
    let digits = s.skip(prefix_len(s));
    if digits.len() > 0 && all_digits(digits, radix_of(s)) {
        Some(digits_value(digits, radix_of(s)))
    } else {
        None
    }
}

/// The byte count that `s` spells: the number of the numeral, where `s` is
/// one and the number fits into 64 bits.
pub open spec fn byte_count(s: Seq<char>) -> Option<u64> {
    match numeral(s) {
        Some(v) => if v <= u64::MAX {
            Some(v as u64)
        } else {
            None
        },
        None => None,
    }
}

/// A longer run of digits spells no smaller a number than any of its
/// beginnings.
proof fn lemma_value_grows(s: Seq<char>, radix: int, n: int)
    requires
        radix >= 2,
        0 <= n <= s.len(),
        all_digits(s, radix),
    ensures
        0 <= digits_value(s.take(n), radix) <= digits_value(s, radix),
    decreases s.len(),
{
    if s.len() == 0 {
        assert(s.take(n) =~= s);
    } else if n == s.len() {
        assert(s.take(n) =~= s);
        lemma_value_grows(s.drop_last(), radix, n - 1);
        assert(0 <= digits_value(s.drop_last(), radix) * radix) by (nonlinear_arith)
            requires
                0 <= digits_value(s.drop_last(), radix),
                radix >= 2,
        ;
        assert(0 <= digit_of(s.last()));
    } else {
        let front = s.drop_last();
        assert(all_digits(front, radix)) by {
            assert forall|i: int| 0 <= i < front.len() implies digit_of(#[trigger] front[i])
                < radix by {
                assert(front[i] == s[i]);
            }
        }
        lemma_value_grows(front, radix, n);
        assert(front.take(n) =~= s.take(n));
        assert(digits_value(front, radix) <= digits_value(front, radix) * radix)
            by (nonlinear_arith)
            requires
                0 <= digits_value(front, radix),
                radix >= 2,
        ;
        assert(0 <= digit_of(s.last()));
    }
}

/// The number that `c` stands for as a digit; sixteen for a character that
/// is no digit.
fn digit_value(c: char) -> (d: u64)
    ensures
        d == digit_of(c),
        d <= 16,
{
    if '0' <= c && c <= '9' {
        (c as u64) - 48
    } else if 'a' <= c && c <= 'f' {
        (c as u64) - 87
    } else if 'A' <= c && c <= 'F' {
        (c as u64) - 55
    } else {
        16
    }
}

/// Reads a byte count: a numeral in decimal, hexadecimal, octal or binary
/// whose number fits into 64 bits. Anything else gives `None`.
pub fn str_to_num(token: &str) -> (count: Option<u64>)
    ensures
        count == byte_count(token@),
{
    let len: usize = token.unicode_len();
    let mut radix: u64 = 10;
    let mut first: usize = 0;
    if len >= 2 && token.get_char(0) == '0' {
        let mark = token.get_char(1);
        if mark == 'x' || mark == 'X' {
            radix = 16;
            first = 2;
        } else if mark == 'b' || mark == 'B' {
            radix = 2;
            first = 2;
        } else {
            radix = 8;
            first = 1;
        }
    }
    let ghost digits = token@.skip(first as int);
    assert(radix == radix_of(token@));
    assert(first == prefix_len(token@));
    if first == len {
        return None;
    }
    let mut value: u64 = 0;
    let mut i: usize = first;
    assert(digits.take(0) =~= Seq::<char>::empty());
    while i < len
        invariant
            first <= i <= len,
            len == token@.len(),
            digits == token@.skip(first as int),
            radix == radix_of(token@),
            first == prefix_len(token@),
            all_digits(digits.take(i - first), radix as int),
            value == digits_value(digits.take(i - first), radix as int),
        decreases len - i,
    {
        let c = token.get_char(i);
        let d: u64 = digit_value(c);
        assert(digits[i - first] == c);
        if d >= radix {
            return None;
        }
        let ghost seen = digits.take(i - first + 1);
        proof {
            assert(seen.drop_last() =~= digits.take(i - first));
            assert(seen.last() == c);
            assert(all_digits(seen, radix as int)) by {
                assert forall|j: int| 0 <= j < seen.len() implies digit_of(#[trigger] seen[j])
                    < radix by {
                    if j < i - first {
                        assert(seen[j] == digits.take(i - first)[j]);
                    }
                }
            }
            assert(digits_value(seen, radix as int) == value * radix + d);
        }
        let next = match value.checked_mul(radix) {
            Some(scaled) => scaled.checked_add(d),
            None => None,
        };
        match next {
            Some(v) => {
                value = v;
            },
            None => {
                proof {
                    assert(digits_value(seen, radix as int) > u64::MAX);
                    if all_digits(digits, radix as int) {
                        lemma_value_grows(digits, radix as int, i - first + 1);
                    }
                }
                return None;
            },
        }
        i = i + 1;
    }
    assert(digits.take(i - first) =~= digits);
    Some(value)
}

} // verus!
