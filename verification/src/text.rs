//! Numbers as text: upper-case hexadecimal and decimal fields, padded to a
//! width, appended to a `String`.

use vstd::prelude::*;
use vstd::string::StringExecFns;

verus! {

/// The sixteen hexadecimal digits, upper case.
pub const HEX: [char; 16] = [
    '0',
    '1',
    '2',
    '3',
    '4',
    '5',
    '6',
    '7',
    '8',
    '9',
    'A',
    'B',
    'C',
    'D',
    'E',
    'F',
];

/// The digit for `d`, which is below 16.
pub open spec fn digit(d: int) -> char {
    HEX[d]
}

/// `v` in hexadecimal, without leading zeros (one digit for zero).
pub open spec fn hex_digits(v: nat) -> Seq<char>
    decreases v,
{
    if v < 16 {
        seq![digit(v as int)]
    } else {
        hex_digits(v / 16).push(digit((v % 16) as int))
    }
}

/// `v` in decimal, without leading zeros (one digit for zero).
pub open spec fn dec_digits(v: nat) -> Seq<char>
    decreases v,
{
    if v < 10 {
        seq![digit(v as int)]
    } else {
        dec_digits(v / 10).push(digit((v % 10) as int))
    }
}

/// `n` copies of `fill`.
pub open spec fn filler(n: int, fill: char) -> Seq<char> {
    Seq::new(
        if n > 0 {
            n as nat
        } else {
            0
        },
        |i: int| fill,
    )
}

/// `s` right-aligned in a field of `width`; longer text is kept whole.
pub open spec fn pad_left(s: Seq<char>, width: nat, fill: char) -> Seq<char> {
    filler(width - s.len(), fill) + s
}

/// `s` left-aligned in a field of `width`; longer text is kept whole.
pub open spec fn pad_right(s: Seq<char>, width: nat, fill: char) -> Seq<char> {
    s + filler(width - s.len(), fill)
}

/// `v` in hexadecimal with at least `width` digits.
pub open spec fn hex_field(v: nat, width: nat) -> Seq<char> {
    pad_left(hex_digits(v), width, '0')
}

/// `v` in decimal, right-aligned with spaces in a field of `width`.
pub open spec fn dec_field(v: nat, width: nat) -> Seq<char> {
    pad_left(dec_digits(v), width, ' ')
}

/// Appends one character to `s`, as `String::push` does.
#[verifier::external_body]
pub(crate) fn push_char(s: &mut String, c: char)
    ensures
        final(s)@ == old(s)@.push(c),
{
    s.push(c);
}

/// Appends `n` copies of `fill`.
pub fn push_filler(out: &mut String, n: usize, fill: char)
    ensures
        final(out)@ == old(out)@ + filler(n as int, fill),
{
    let mut i: usize = 0;
    while i < n
        invariant
            i <= n,
            out@ == old(out)@ + filler(i as int, fill),
        decreases n - i,
    {
        push_char(out, fill);
        i = i + 1;
        assert(out@ =~= old(out)@ + filler(i as int, fill));
    }
    assert(out@ =~= old(out)@ + filler(n as int, fill));
}

/// Appends `v` in hexadecimal with at least `width` digits.
pub fn push_hex(out: &mut String, v: u16, width: usize)
    requires
        1 <= width <= 4,
    ensures
        final(out)@ == old(out)@ + hex_field(v as nat, width as nat),
{
    reveal_with_fuel(hex_digits, 4);
    let ghost start = out@;
    let ghost digits = hex_digits(v as nat);
    if v >= 0x1000 || width >= 4 {
        push_char(out, HEX[(v / 0x1000) as usize]);
    }
    if v >= 0x100 || width >= 3 {
        push_char(out, HEX[((v / 0x100) % 16) as usize]);
    }
    if v >= 0x10 || width >= 2 {
        push_char(out, HEX[((v / 0x10) % 16) as usize]);
    }
    push_char(out, HEX[(v % 16) as usize]);
    assert(out@ =~= start + hex_field(v as nat, width as nat));
}

/// Appends `v` in decimal, without leading zeros.
pub fn push_dec_digits(out: &mut String, v: u16)
    ensures
        final(out)@ == old(out)@ + dec_digits(v as nat),
    decreases v,
{
    let ghost start = out@;
    if v >= 10 {
        push_dec_digits(out, v / 10);
    }
    push_char(out, HEX[(v % 10) as usize]);
    assert(out@ =~= start + dec_digits(v as nat));
}

/// The number of decimal digits of `v`.
pub fn dec_len(v: u16) -> (n: usize)
    ensures
        n == dec_digits(v as nat).len(),
        1 <= n <= 5,
        v < 10000 ==> n <= 4,
        v < 1000 ==> n <= 3,
        v < 100 ==> n <= 2,
        v < 10 ==> n <= 1,
    decreases v,
{
    if v >= 10 {
        dec_len(v / 10) + 1
    } else {
        1
    }
}

/// Appends `v` in decimal, right-aligned with spaces in a field of `width`.
pub fn push_dec(out: &mut String, v: u16, width: usize)
    ensures
        final(out)@ == old(out)@ + dec_field(v as nat, width as nat),
{
    let ghost start = out@;
    let count = dec_len(v);
    if width > count {
        push_filler(out, width - count, ' ');
    }
    assert(out@ =~= start + filler(width - count, ' '));
    push_dec_digits(out, v);
    assert(out@ =~= start + dec_field(v as nat, width as nat));
}

/// Appends `text` right-aligned with spaces in a field of `width`.
pub fn push_right_aligned(out: &mut String, text: &str, width: usize)
    ensures
        final(out)@ == old(out)@ + pad_left(text@, width as nat, ' '),
{
    let ghost start = out@;
    let len = text.unicode_len();
    if width > len {
        push_filler(out, width - len, ' ');
    }
    out.append(text);
    assert(out@ =~= start + pad_left(text@, width as nat, ' '));
}

/// Appends `text` left-aligned with spaces in a field of `width`.
pub fn push_left_aligned(out: &mut String, text: &str, width: usize)
    ensures
        final(out)@ == old(out)@ + pad_right(text@, width as nat, ' '),
{
    let ghost start = out@;
    let len = text.unicode_len();
    out.append(text);
    if width > len {
        push_filler(out, width - len, ' ');
    }
    assert(out@ =~= start + pad_right(text@, width as nat, ' '));
}

} // verus!
