//! Decimal rendering of unsigned numbers, verified character by character.
//!
//! The report needs three shapes of number: a plain decimal (`44100`), a
//! field padded to at least two digits (`07`), and a fixed-point value with
//! exactly two fractional digits (`0.50`). Each exec function below returns
//! a `String` whose view equals the corresponding spec-level sequence.

use vstd::prelude::*;
use vstd::string::*;

verus! {

/// The character for a single decimal digit.
pub open spec fn digit_char(d: int) -> char {
    if d == 0 {
        '0'
    } else if d == 1 {
        '1'
    } else if d == 2 {
        '2'
    } else if d == 3 {
        '3'
    } else if d == 4 {
        '4'
    } else if d == 5 {
        '5'
    } else if d == 6 {
        '6'
    } else if d == 7 {
        '7'
    } else if d == 8 {
        '8'
    } else {
        '9'
    }
}

/// The decimal representation of `n`, most significant digit first,
/// with no leading zeros (a lone `0` for zero).
pub open spec fn dec_rep(n: nat) -> Seq<char>
    decreases n,
{
    if n < 10 {
        seq![digit_char(n as int)]
    } else {
        dec_rep(n / 10) + seq![digit_char((n % 10) as int)]
    }
}

/// The decimal representation padded with a leading zero to at least two
/// characters: the shape of an `HH`, `MM`, `SS` or hundredths field.
pub open spec fn pad2_rep(n: nat) -> Seq<char> {
    if n < 10 {
        seq!['0'] + dec_rep(n)
    } else {
        dec_rep(n)
    }
}

/// A value of `h` hundredths written with exactly two fractional digits,
/// as `{:.2}` writes `h / 100`.
pub open spec fn fixed2_rep(h: nat) -> Seq<char> {
    dec_rep(h / 100) + "."@ + pad2_rep(h % 100)
}

/// The one-character string for a single decimal digit.
pub fn digit_str(d: u64) -> (s: &'static str)
    requires
        d < 10,
    ensures
        s@ == seq![digit_char(d as int)],
{
    let s: &'static str = if d == 0 {
        "0"
    } else if d == 1 {
        "1"
    } else if d == 2 {
        "2"
    } else if d == 3 {
        "3"
    } else if d == 4 {
        "4"
    } else if d == 5 {
        "5"
    } else if d == 6 {
        "6"
    } else if d == 7 {
        "7"
    } else if d == 8 {
        "8"
    } else {
        "9"
    };
    proof {
        reveal_strlit("0");
        reveal_strlit("1");
        reveal_strlit("2");
        reveal_strlit("3");
        reveal_strlit("4");
        reveal_strlit("5");
        reveal_strlit("6");
        reveal_strlit("7");
        reveal_strlit("8");
        reveal_strlit("9");
        assert(s@ =~= seq![digit_char(d as int)]);
    }
    s
}

/// Writes `n` in decimal, without padding.
pub fn u64_to_dec(n: u64) -> (s: String)
    ensures
        s@ == dec_rep(n as nat),
    decreases n,
{
    if n < 10 {
        String::from_str(digit_str(n))
    } else {
        let mut s = u64_to_dec(n / 10);
        s.append(digit_str(n % 10));
        s
    }
}

/// Writes `n` in decimal, padded with a leading zero to at least two digits.
pub fn u64_to_pad2(n: u64) -> (s: String)
    ensures
        s@ == pad2_rep(n as nat),
{
    if n < 10 {
        let mut s = String::from_str("0");
        s.append(digit_str(n));
        proof {
            reveal_strlit("0");
            assert(("0")@ =~= seq!['0']);
        }
        s
    } else {
        u64_to_dec(n)
    }
}

/// Writes the value of `h` hundredths with two fractional digits.
pub fn u64_to_fixed2(h: u64) -> (s: String)
    ensures
        s@ == fixed2_rep(h as nat),
{
    let mut s = u64_to_dec(h / 100);
    s.append(".");
    let frac = u64_to_pad2(h % 100);
    s.append(frac.as_str());
    s
}

} // verus!
