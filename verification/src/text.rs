//! Rendering of numbers as text, in the forms that diagnostic messages use:
//! upper-case hexadecimal of a fixed width and plain decimal.

use vstd::prelude::*;
use vstd::string::*;
use vstd::utf8::{valid_utf8, decode_utf8};

verus! {

/// The character of a hexadecimal digit, upper case.
pub open spec fn hex_char(n: int) -> char {
    if n == 0 { '0' } else if n == 1 { '1' } else if n == 2 { '2' } else if n == 3 { '3' }
    else if n == 4 { '4' } else if n == 5 { '5' } else if n == 6 { '6' } else if n == 7 { '7' }
    else if n == 8 { '8' } else if n == 9 { '9' } else if n == 10 { 'A' } else if n == 11 { 'B' }
    else if n == 12 { 'C' } else if n == 13 { 'D' } else if n == 14 { 'E' } else { 'F' }
}

/// The character of a decimal digit.
pub open spec fn dec_char(n: int) -> char {
    hex_char(n)
}

/// A byte as two upper-case hexadecimal digits (`{:02X}`).
pub open spec fn hex2(b: u8) -> Seq<char> {
    seq![hex_char(b as int / 16), hex_char(b as int % 16)]
}

/// A value as upper-case hexadecimal with no leading zeros, at least one digit (`{:X}`).
pub open spec fn hex_min(n: nat) -> Seq<char>
    decreases n,
{
    if n < 16 {
        seq![hex_char(n as int)]
    } else {
        hex_min(n / 16) + seq![hex_char((n % 16) as int)]
    }
}

/// A value as upper-case hexadecimal padded with zeros to at least `width` digits.
pub open spec fn hex_padded(n: nat, width: nat) -> Seq<char> {
    let digits = hex_min(n);
    if digits.len() >= width {
        digits
    } else {
        Seq::new((width - digits.len()) as nat, |i: int| '0') + digits
    }
}

/// A value as upper-case hexadecimal padded with spaces to at least `width` characters
/// (the `{:2X}` form).
pub open spec fn hex_space_padded(n: nat, width: nat) -> Seq<char> {
    let digits = hex_min(n);
    if digits.len() >= width {
        digits
    } else {
        Seq::new((width - digits.len()) as nat, |i: int| ' ') + digits
    }
}

/// A value in decimal with no leading zeros (`{}`).
pub open spec fn decimal(n: nat) -> Seq<char>
    decreases n,
{
    if n < 10 {
        seq![dec_char(n as int)]
    } else {
        decimal(n / 10) + seq![dec_char((n % 10) as int)]
    }
}

/// The text of one hexadecimal digit.
fn hex_digit_text(n: u8) -> (r: &'static str)
    requires
        n < 16,
    ensures
        r@ == seq![hex_char(n as int)],
{
    match n {
        0 => { proof { reveal_strlit("0"); } "0" },
        1 => { proof { reveal_strlit("1"); } "1" },
        2 => { proof { reveal_strlit("2"); } "2" },
        3 => { proof { reveal_strlit("3"); } "3" },
        4 => { proof { reveal_strlit("4"); } "4" },
        5 => { proof { reveal_strlit("5"); } "5" },
        6 => { proof { reveal_strlit("6"); } "6" },
        7 => { proof { reveal_strlit("7"); } "7" },
        8 => { proof { reveal_strlit("8"); } "8" },
        9 => { proof { reveal_strlit("9"); } "9" },
        10 => { proof { reveal_strlit("A"); } "A" },
        11 => { proof { reveal_strlit("B"); } "B" },
        12 => { proof { reveal_strlit("C"); } "C" },
        13 => { proof { reveal_strlit("D"); } "D" },
        14 => { proof { reveal_strlit("E"); } "E" },
        _ => { proof { reveal_strlit("F"); } "F" },
    }
}

/// Appends a byte as two upper-case hexadecimal digits.
pub fn push_hex2(s: &mut String, b: u8)
    ensures
        final(s)@ == old(s)@ + hex2(b),
{
    s.append(hex_digit_text(b / 16));
    s.append(hex_digit_text(b % 16));
}

/// Appends a value in upper-case hexadecimal with no leading zeros.
pub fn push_hex_min(s: &mut String, n: u64)
    ensures
        final(s)@ == old(s)@ + hex_min(n as nat),
    decreases n,
{
    if n >= 16 {
        push_hex_min(s, n / 16);
    }
    s.append(hex_digit_text((n % 16) as u8));
    proof {
        if n >= 16 {
            assert(old(s)@ + hex_min((n / 16) as nat) + seq![hex_char((n % 16) as int)]
                =~= old(s)@ + hex_min(n as nat));
        }
    }
}

/// The number of hexadecimal digits of a value, without leading zeros.
proof fn lemma_hex_min_len(n: nat)
    ensures
        hex_min(n).len() >= 1,
        n < 16 ==> hex_min(n).len() == 1,
        16 <= n < 256 ==> hex_min(n).len() == 2,
    decreases n,
{
    if n >= 16 {
        lemma_hex_min_len(n / 16);
    }
}

/// Appends a value in decimal with no leading zeros.
pub fn push_decimal(s: &mut String, n: u64)
    ensures
        final(s)@ == old(s)@ + decimal(n as nat),
    decreases n,
{
    if n >= 10 {
        push_decimal(s, n / 10);
    }
    s.append(hex_digit_text((n % 10) as u8));
    proof {
        if n >= 10 {
            assert(old(s)@ + decimal((n / 10) as nat) + seq![dec_char((n % 10) as int)]
                =~= old(s)@ + decimal(n as nat));
        }
    }
}

/// Appends a byte as upper-case hexadecimal padded with spaces to two characters.
pub fn push_hex_space2(s: &mut String, b: u8)
    ensures
        final(s)@ == old(s)@ + hex_space_padded(b as nat, 2),
{
    proof { lemma_hex_min_len(b as nat); }
    if b < 16 {
        proof { reveal_strlit(" "); }
        s.append(" ");
    }
    push_hex_min(s, b as u64);
    proof {
        if b < 16 {
            assert(Seq::new(1, |i: int| ' ') =~= seq![' ']);
            assert(old(s)@ + seq![' '] + hex_min(b as nat)
                =~= old(s)@ + hex_space_padded(b as nat, 2));
        }
    }
}

/// Appends a small value (below sixteen) as a single upper-case hexadecimal digit.
pub fn push_hex1(s: &mut String, n: u8)
    requires
        n < 16,
    ensures
        final(s)@ == old(s)@ + seq![hex_char(n as int)],
{
    s.append(hex_digit_text(n));
}

/// Appends a string slice.
pub fn push_str(s: &mut String, t: &str)
    ensures
        final(s)@ == old(s)@ + t@,
{
    s.append(t);
}

/// Two hexadecimal digits of a byte as a new string (`format!("{:02X}", b)`).
pub fn byte_hex(b: u8) -> (r: String)
    ensures
        r@ == hex2(b),
{
    let mut s = String::new();
    push_hex2(&mut s, b);
    s
}

/// Decimal digits of a value as a new string (`format!("{}", n)`).
pub fn decimal_text(n: u64) -> (r: String)
    ensures
        r@ == decimal(n as nat),
{
    let mut s = String::new();
    push_decimal(&mut s, n);
    s
}

/// What `String::from_utf8_lossy` makes of a byte sequence: the decoded text, with each
/// invalid sequence replaced by U+FFFD.
pub uninterp spec fn utf8_lossy(bytes: Seq<u8>) -> Seq<char>;

/// Decodes bytes as UTF-8 (`std::str::from_utf8`). The result is present exactly when
/// the bytes are valid UTF-8, and is then their decoding.
#[verifier::external_body]
pub(crate) fn utf8_decode(bytes: &[u8]) -> (r: Option<String>)
    ensures
        r is Some <==> valid_utf8(bytes@),
        r matches Some(s) ==> s@ == decode_utf8(bytes@),
{
    std::str::from_utf8(bytes).ok().map(|t| t.to_string())
}

/// Decodes bytes as UTF-8, replacing each invalid sequence with U+FFFD
/// (`String::from_utf8_lossy`). Valid UTF-8 is decoded unchanged; what the replacement
/// gives otherwise is named, not stated.
#[verifier::external_body]
pub(crate) fn utf8_decode_lossy(bytes: &[u8]) -> (r: String)
    ensures
        r@ == utf8_lossy(bytes@),
        valid_utf8(bytes@) ==> r@ == decode_utf8(bytes@),
{
    String::from_utf8_lossy(bytes).to_string()
}

} // verus!
