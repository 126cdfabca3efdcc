//! Text building blocks shared by the decode routines: unsigned decimal
//! rendering and the explicit-sign form of displacements.

use vstd::prelude::*;
use vstd::string::StringExecFns;

verus! {

/// The decimal digit character for `d` (meaningful for `d < 10`).
pub open spec fn digit_char(d: nat) -> char {
    if d == 0 {
        '0'
    } else if d == 1 {
        '1'
    } else if d == 2 {
        '2'
    } else if d == 3 {
        '3'
    } else if d == 4 {
        '4'
    } else if d == 5 {
        '5'
    } else if d == 6 {
        '6'
    } else if d == 7 {
        '7'
    } else if d == 8 {
        '8'
    } else if d == 9 {
        '9'
    } else {
        ' '
    }
}

/// The decimal digits of `n`, most significant first, with no leading
/// zeros (`0` itself is the single digit `0`).
pub open spec fn dec_digits(n: nat) -> Seq<char>
    decreases n,
{
    if n < 10 {
        seq![digit_char(n)]
    } else {
        dec_digits(n / 10) + seq![digit_char(n % 10)]
    }
}

/// The one-character string for the digit `d`.
fn digit_str(d: u16) -> (r: &'static str)
    requires
        d < 10,
    ensures
        r@ == seq![digit_char(d as nat)],
{
    proof {
        reveal_strlit("0");
        reveal_strlit("1");
        reveal_strlit("2");
        reveal_strlit("3");
        reveal_strlit("4");
        reveal_strlit("5");
        reveal_strlit("6");
        reveal_strlit("7");
        reveal_strlit("8");
        reveal_strlit("9");
    }
    match d {
        0 => "0",
        1 => "1",
        2 => "2",
        3 => "3",
        4 => "4",
        5 => "5",
        6 => "6",
        7 => "7",
        8 => "8",
        _ => "9",
    }
}

/// Renders `n` in unsigned decimal.
pub fn dec_u16(n: u16) -> (r: String)
    ensures
        r@ == dec_digits(n as nat),
    decreases n,
{
    if n < 10 {
        String::from_str(digit_str(n))
    } else {
        let mut s = dec_u16(n / 10);
        s.append(digit_str(n % 10));
        proof {
            assert(s@ =~= dec_digits(n as nat));
        }
        s
    }
}

/// The explicit-sign suffix of an 8-bit displacement inside a bracketed
/// effective address: ` + m` for a non-negative two's-complement value,
/// ` - m` for a negative one, `m` being the magnitude.
pub open spec fn sign_mag8(d: u8) -> Seq<char> {
    if d < 128 {
        " + "@ + dec_digits(d as nat)
    } else {
        " - "@ + dec_digits((256 - d) as nat)
    }
}

/// The explicit-sign suffix of a 16-bit displacement.
pub open spec fn sign_mag16(d: u16) -> Seq<char> {
    if d < 32768 {
        " + "@ + dec_digits(d as nat)
    } else {
        " - "@ + dec_digits((65536 - d) as nat)
    }
}

/// Renders the sign and magnitude of an 8-bit displacement.
pub fn sign_mag8_text(d: u8) -> (r: String)
    ensures
        r@ == sign_mag8(d),
{
    if d < 128 {
        let mut s = String::from_str(" + ");
        s.append(dec_u16(d as u16).as_str());
        s
    } else {
        let mut s = String::from_str(" - ");
        s.append(dec_u16(256 - d as u16).as_str());
        s
    }
}

/// Renders the sign and magnitude of a 16-bit displacement.
pub fn sign_mag16_text(d: u16) -> (r: String)
    ensures
        r@ == sign_mag16(d),
{
    if d < 32768 {
        let mut s = String::from_str(" + ");
        s.append(dec_u16(d).as_str());
        s
    } else {
        let mut s = String::from_str(" - ");
        let m = 65535 - d + 1;
        assert(m == 65536 - d);
        s.append(dec_u16(m).as_str());
        s
    }
}

} // verus!
