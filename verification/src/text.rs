//! Rendering of the numbers that parse error messages carry: decimal for
//! byte counts, `0x`-prefixed uppercase hex for unrecognized codes.

use vstd::prelude::*;
use vstd::string::StringExecFns;

verus! {

/// The character for one digit value below 16; 10 and up render as the
/// uppercase letters 'A' to 'F'.
pub open spec fn digit_char(d: int) -> char
    recommends
        0 <= d < 16,
{
    if d == 0 {
        '0'
    } else if d == 1 {
        '1'
    } else if d == 2 {
        '2'
    } else if d == 3 {
        '3'
    } else if d == 4 {
        '4'
    } else if d == 5 {
        '5'
    } else if d == 6 {
        '6'
    } else if d == 7 {
        '7'
    } else if d == 8 {
        '8'
    } else if d == 9 {
        '9'
    } else if d == 10 {
        'A'
    } else if d == 11 {
        'B'
    } else if d == 12 {
        'C'
    } else if d == 13 {
        'D'
    } else if d == 14 {
        'E'
    } else {
        'F'
    }
}

/// The decimal rendering of `n`, most significant digit first, with no
/// leading zeroes.
pub open spec fn decimal_rep(n: nat) -> Seq<char>
    decreases n,
{
    if n < 10 {
        seq![digit_char(n as int)]
    } else {
        decimal_rep(n / 10) + seq![digit_char((n % 10) as int)]
    }
}

/// The rendering of one byte as `0x` followed by two uppercase hex digits.
pub open spec fn hex_byte_rep(b: u8) -> Seq<char> {
    seq!['0', 'x', digit_char(b as int / 16), digit_char(b as int % 16)]
}

fn digit_str(d: u8) -> (s: &'static str)
    requires
        d < 16,
    ensures
        s@ == seq![digit_char(d as int)],
{
    proof {
        reveal_strlit("0");
        reveal_strlit("1");
        reveal_strlit("2");
        reveal_strlit("3");
        reveal_strlit("4");
        reveal_strlit("5");
        reveal_strlit("6");
        reveal_strlit("7");
        reveal_strlit("8");
        reveal_strlit("9");
        reveal_strlit("A");
        reveal_strlit("B");
        reveal_strlit("C");
        reveal_strlit("D");
        reveal_strlit("E");
        reveal_strlit("F");
    }
    let s: &'static str = if d == 0 {
        "0"
    } else if d == 1 {
        "1"
    } else if d == 2 {
        "2"
    } else if d == 3 {
        "3"
    } else if d == 4 {
        "4"
    } else if d == 5 {
        "5"
    } else if d == 6 {
        "6"
    } else if d == 7 {
        "7"
    } else if d == 8 {
        "8"
    } else if d == 9 {
        "9"
    } else if d == 10 {
        "A"
    } else if d == 11 {
        "B"
    } else if d == 12 {
        "C"
    } else if d == 13 {
        "D"
    } else if d == 14 {
        "E"
    } else {
        "F"
    };
    proof {
        assert(s@ =~= seq![digit_char(d as int)]);
    }
    s
}

/// The decimal rendering of `n` as an owned string.
pub fn decimal_string(n: usize) -> (s: String)
    ensures
        s@ == decimal_rep(n as nat),
    decreases n,
{
    if n < 10 {
        String::from_str(digit_str(n as u8))
    } else {
        let s = decimal_string(n / 10);
        let s = s.concat(digit_str((n % 10) as u8));
        proof {
            assert(s@ =~= decimal_rep(n as nat));
        }
        s
    }
}

/// The `0xAB`-style rendering of one byte as an owned string.
pub fn hex_byte_string(b: u8) -> (s: String)
    ensures
        s@ == hex_byte_rep(b),
{
    proof {
        reveal_strlit("0x");
    }
    let s = String::from_str("0x");
    let s = s.concat(digit_str(b / 16));
    let s = s.concat(digit_str(b % 16));
    proof {
        assert(s@ =~= hex_byte_rep(b));
    }
    s
}

} // verus!
