//! Rendering a cache lifetime as decimal text for the cache-control header.

use vstd::prelude::*;

verus! {

/// The decimal digit character for `d`.
pub open spec fn digit_char(d: nat) -> char {
    if d == 0 {
        '0'
    } else if d == 1 {
        '1'
    } else if d == 2 {
        '2'
    } else if d == 3 {
        '3'
    } else if d == 4 {
        '4'
    } else if d == 5 {
        '5'
    } else if d == 6 {
        '6'
    } else if d == 7 {
        '7'
    } else if d == 8 {
        '8'
    } else {
        '9'
    }
}

/// The decimal rendering of `n`: most significant digit first, no leading
/// zeroes, a single `0` for zero.
pub open spec fn decimal_of(n: nat) -> Seq<char>
    decreases n,
{
    if n < 10 {
        seq![digit_char(n)]
    } else {
        decimal_of(n / 10) + seq![digit_char(n % 10)]
    }
}

/// The one-character string for a decimal digit.
fn digit_str(d: u8) -> (r: &'static str)
    requires
        d < 10,
    ensures
        r@ == seq![digit_char(d as nat)],
{
    proof {
        reveal_strlit("0");
        reveal_strlit("1");
        reveal_strlit("2");
        reveal_strlit("3");
        reveal_strlit("4");
        reveal_strlit("5");
        reveal_strlit("6");
        reveal_strlit("7");
        reveal_strlit("8");
        reveal_strlit("9");
        assert("0"@ =~= seq!['0']);
        assert("1"@ =~= seq!['1']);
        assert("2"@ =~= seq!['2']);
        assert("3"@ =~= seq!['3']);
        assert("4"@ =~= seq!['4']);
        assert("5"@ =~= seq!['5']);
        assert("6"@ =~= seq!['6']);
        assert("7"@ =~= seq!['7']);
        assert("8"@ =~= seq!['8']);
        assert("9"@ =~= seq!['9']);
    }
    match d {
        0 => "0",
        1 => "1",
        2 => "2",
        3 => "3",
        4 => "4",
        5 => "5",
        6 => "6",
        7 => "7",
        8 => "8",
        _ => "9",
    }
}

/// Render `n` in decimal.
pub fn decimal_string(n: u8) -> (r: String)
    ensures
        r@ == decimal_of(n as nat),
{
    let q: u8 = n / 10;
    let mut s = String::new();
    if q >= 10 {
        s.append(digit_str(q / 10));
    }
    if n >= 10 {
        s.append(digit_str(q % 10));
    }
    s.append(digit_str(n % 10));
    proof {
        let nn = n as nat;
        if nn >= 10 {
            assert(decimal_of(nn) == decimal_of(nn / 10) + seq![digit_char(nn % 10)]);
            if nn / 10 >= 10 {
                assert(decimal_of(nn / 10) == decimal_of(nn / 10 / 10) + seq![
                    digit_char(nn / 10 % 10),
                ]);
                assert(decimal_of(nn / 10 / 10) == seq![digit_char(nn / 10 / 10)]);
            } else {
                assert(decimal_of(nn / 10) == seq![digit_char(nn / 10)]);
            }
        }
        assert(s@ =~= decimal_of(nn));
    }
    s
}

} // verus!
