//! Building blocks for the text of a dump: hexadecimal digits, offset
//! labels and padding.

use vstd::prelude::*;

verus! {

/// `String::push` of the standard library: the string grows by exactly the
/// given character, at its end.
pub assume_specification[ String::push ](s: &mut String, c: char)
    ensures
        final(s)@ == old(s)@.push(c),
;

/// The texts of a sequence of strings.
pub open spec fn texts(v: Seq<String>) -> Seq<Seq<char>> {
    v.map_values(|s: String| s@)
}

/// The digit that stands for `n` in lower-case hexadecimal.
pub open spec fn hex_digit(n: int) -> char
    recommends
        0 <= n < 16,
{
    if n < 10 {
        (n + 48) as char
    } else {
        (n + 87) as char
    }
}

/// The two hexadecimal digits of a byte, high nibble first.
pub open spec fn byte_hex(b: u8) -> Seq<char> {
    seq![hex_digit(b as int / 16), hex_digit(b as int % 16)]
}

/// The `n` least significant hexadecimal digits of `v`, most significant
/// first.
pub open spec fn low_hex(v: nat, n: nat) -> Seq<char>
    decreases n,
{
    if n == 0 {
        Seq::empty()
    } else {
        low_hex(v / 16, (n - 1) as nat).push(hex_digit((v % 16) as int))
    }
}

/// How many hexadecimal digits `v` takes when written without leading zeros.
pub open spec fn hex_len(v: nat) -> nat
    decreases v,
{
    if v < 16 {
        1
    } else {
        1 + hex_len(v / 16)
    }
}

/// The decimal digit that stands for `n`.
pub open spec fn decimal_digit(n: int) -> char
    recommends
        0 <= n < 10,
{
    (n + 48) as char
}

/// `v` in decimal, without leading zeros.
pub open spec fn decimal(v: nat) -> Seq<char>
    decreases v,
{
    if v < 10 {
        seq![decimal_digit(v as int)]
    } else {
        decimal(v / 10).push(decimal_digit((v % 10) as int))
    }
}

/// The least number of digits an offset label shows.
pub const LABEL_DIGITS: u8 = 8;

/// The label of the row that starts at `addr`: `0x`, then the address in
/// hexadecimal, padded with zeros on the left to eight digits.
pub open spec fn offset_label(addr: nat) -> Seq<char> {
    let digits = if hex_len(addr) < LABEL_DIGITS {
        LABEL_DIGITS as nat
    } else {
        hex_len(addr)
    };
    seq!['0', 'x'] + low_hex(addr, digits)
}

/// `n` blanks.
pub open spec fn spaces(n: nat) -> Seq<char> {
    Seq::new(n, |i: int| ' ')
}

/// `s`, followed by as many blanks as it takes to reach `width` characters.
/// A text that is already that wide stays as it is.
pub open spec fn pad_right(s: Seq<char>, width: nat) -> Seq<char> {
    if s.len() >= width {
        s
    } else {
        s + spaces((width - s.len()) as nat)
    }
}

/// The lower-case hexadecimal digit of a value below sixteen.
fn hex_digit_char(n: u8) -> (c: char)
    requires
        n < 16,
    ensures
        c == hex_digit(n as int),
{
    if n < 10 {
        (n + 48) as char
    } else {
        (n + 87) as char
    }
}

/// Appends the two hexadecimal digits of `b`.
pub fn push_byte_hex(out: &mut String, b: u8)
    ensures
        final(out)@ == old(out)@ + byte_hex(b),
{
    out.push(hex_digit_char(b / 16));
    out.push(hex_digit_char(b % 16));
    assert(out@ =~= old(out)@ + byte_hex(b));
}

/// Appends the `n` least significant hexadecimal digits of `v`.
fn push_low_hex(out: &mut String, v: u64, n: u8)
    ensures
        final(out)@ == old(out)@ + low_hex(v as nat, n as nat),
    decreases n,
{
    if n > 0 {
        push_low_hex(out, v / 16, n - 1);
        out.push(hex_digit_char((v % 16) as u8));
        assert(out@ =~= old(out)@ + low_hex(v as nat, n as nat));
    } else {
        assert(out@ =~= old(out)@ + low_hex(v as nat, n as nat));
    }
}

/// Sixteen to the power `e`.
spec fn pow16(e: nat) -> nat
    decreases e,
{
    if e == 0 {
        1
    } else {
        16 * pow16((e - 1) as nat)
    }
}

/// The number of hexadecimal digits of `v`.
fn count_hex_digits(v: u64) -> (n: u8)
    ensures
        n == hex_len(v as nat),
        1 <= n <= 16,
{
    let mut rest: u64 = v;
    let mut n: u8 = 1;
    assert(pow16(16) == 0x1_0000_0000_0000_0000) by {
        reveal_with_fuel(pow16, 17);
    }
    while rest >= 16
        invariant
            1 <= n <= 16,
            n + hex_len(rest as nat) == 1 + hex_len(v as nat),
            (rest as nat) < pow16((17 - n) as nat),
        decreases rest,
    {
        assert(pow16((17 - n) as nat) == 16 * pow16((16 - n) as nat));
        assert(n < 16) by {
            if n == 16 {
                assert(pow16(1) == 16 * pow16(0));
            }
        }
        rest = rest / 16;
        n = n + 1;
    }
    n
}

/// The label of the row that starts at `addr`.
pub fn label_of(addr: u64) -> (label: String)
    ensures
        label@ == offset_label(addr as nat),
{
    let mut label = String::new();
    label.push('0');
    label.push('x');
    let len: u8 = count_hex_digits(addr);
    let digits: u8 = if len < LABEL_DIGITS {
        LABEL_DIGITS
    } else {
        len
    };
    push_low_hex(&mut label, addr, digits);
    assert(label@ =~= offset_label(addr as nat));
    label
}

/// Appends `v` in decimal.
pub fn push_decimal(out: &mut String, v: u64)
    ensures
        final(out)@ == old(out)@ + decimal(v as nat),
    decreases v,
{
    if v >= 10 {
        push_decimal(out, v / 10);
    }
    out.push(((v % 10) as u8 + 48) as char);
    assert(out@ =~= old(out)@ + decimal(v as nat));
}

/// Appends `n` blanks.
pub fn push_spaces(out: &mut String, n: usize)
    ensures
        final(out)@ == old(out)@ + spaces(n as nat),
{
    let mut i: usize = 0;
    while i < n
        invariant
            i <= n,
            out@ == old(out)@ + spaces(i as nat),
        decreases n - i,
    {
        out.push(' ');
        i = i + 1;
        assert(out@ =~= old(out)@ + spaces(i as nat));
    }
}

/// Pads `out` with blanks on the right until it is `width` characters wide.
pub fn pad_to(out: &mut String, width: usize)
    ensures
        final(out)@ == pad_right(old(out)@, width as nat),
{
    let have: usize = out.as_str().unicode_len();
    if have < width {
        push_spaces(out, width - have);
    }
}

} // verus!
