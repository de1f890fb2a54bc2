//! Building text: decimal and hexadecimal numbers, booleans and single
//! characters appended to a `String`, each stated over `Seq<char>`.

use vstd::prelude::*;
use vstd::string::*;

verus! {

/// The character of one digit (`0`-`9`, then upper-case `A`-`F`).
pub open spec fn digit_char(d: nat) -> char {
    if d < 10 {
        (d + 48) as char
    } else {
        (d + 55) as char
    }
}

/// `n` written in decimal, without leading zeros (`0` is written `0`).
pub open spec fn decimal(n: nat) -> Seq<char>
    decreases n,
{
    if n < 10 {
        seq![digit_char(n)]
    } else {
        decimal(n / 10).push(digit_char(n % 10))
    }
}

/// `n` written in upper-case hexadecimal, padded with `0` to at least
/// `width` digits.
pub open spec fn hex_upper(n: nat, width: nat) -> Seq<char>
    decreases n + width,
{
    if n < 16 && width <= 1 {
        seq![digit_char(n)]
    } else {
        let w: nat = if width > 0 { (width - 1) as nat } else { 0 };
        hex_upper(n / 16, w).push(digit_char(n % 16))
    }
}

/// `true` or `false`, as Rust writes a `bool`.
pub open spec fn bool_text(b: bool) -> Seq<char> {
    if b { "true"@ } else { "false"@ }
}

/// Appends one character with `String::push`; the contract claims that the
/// string afterwards is the old text followed by `c`, as std documents.
#[verifier::external_body]
pub(crate) fn push_char(s: &mut String, c: char)
    ensures
        final(s)@ == old(s)@.push(c),
{
    s.push(c);
}

fn digit(d: u8) -> (c: char)
    requires
        d < 16,
    ensures
        c == digit_char(d as nat),
{
    if d < 10 {
        (d + 48) as char
    } else {
        (d + 55) as char
    }
}

/// Appends `n` in decimal.
pub fn push_decimal(s: &mut String, n: u128)
    ensures
        final(s)@ == old(s)@ + decimal(n as nat),
    decreases n,
{
    let ghost start = s@;
    if n >= 10 {
        push_decimal(s, n / 10);
    }
    push_char(s, digit((n % 10) as u8));
    assert(s@ =~= start + decimal(n as nat));
}

/// Appends `n` in upper-case hexadecimal with at least `width` digits.
pub fn push_hex_upper(s: &mut String, n: u128, width: u32)
    ensures
        final(s)@ == old(s)@ + hex_upper(n as nat, width as nat),
    decreases n + width,
{
    let ghost start = s@;
    if !(n < 16 && width <= 1) {
        let w: u32 = if width > 0 { width - 1 } else { 0 };
        push_hex_upper(s, n / 16, w);
    }
    push_char(s, digit((n % 16) as u8));
    assert(s@ =~= start + hex_upper(n as nat, width as nat));
}

/// Appends `true` or `false`.
pub fn push_bool(s: &mut String, b: bool)
    ensures
        final(s)@ == old(s)@ + bool_text(b),
{
    if b {
        s.append("true");
    } else {
        s.append("false");
    }
}

} // verus!
