//! Decimal rendering of counters, for worker names and error messages.

use vstd::prelude::*;
use vstd::string::StringExecFns;

verus! {

/// The character of a single decimal digit.
pub open spec fn digit_char(d: nat) -> char {
    if d == 0 {
        '0'
    } else if d == 1 {
        '1'
    } else if d == 2 {
        '2'
    } else if d == 3 {
        '3'
    } else if d == 4 {
        '4'
    } else if d == 5 {
        '5'
    } else if d == 6 {
        '6'
    } else if d == 7 {
        '7'
    } else if d == 8 {
        '8'
    } else {
        '9'
    }
}

/// The decimal digits of `n`, most significant first, without leading zeros
/// (a single `'0'` for zero).
pub open spec fn dec_digits(n: nat) -> Seq<char>
    decreases n,
{
    if n < 10 {
        seq![digit_char(n)]
    } else {
        dec_digits(n / 10).push(digit_char(n % 10))
    }
}

fn digit_str(d: usize) -> (s: &'static str)
    requires
        d < 10,
    ensures
        s@ == seq![digit_char(d as nat)],
{
    if d == 0 {
        proof {
            reveal_strlit("0");
        }
        let s = "0";
        assert(s@ =~= seq![digit_char(0nat)]);
        s
    } else if d == 1 {
        proof {
            reveal_strlit("1");
        }
        let s = "1";
        assert(s@ =~= seq![digit_char(1nat)]);
        s
    } else if d == 2 {
        proof {
            reveal_strlit("2");
        }
        let s = "2";
        assert(s@ =~= seq![digit_char(2nat)]);
        s
    } else if d == 3 {
        proof {
            reveal_strlit("3");
        }
        let s = "3";
        assert(s@ =~= seq![digit_char(3nat)]);
        s
    } else if d == 4 {
        proof {
            reveal_strlit("4");
        }
        let s = "4";
        assert(s@ =~= seq![digit_char(4nat)]);
        s
    } else if d == 5 {
        proof {
            reveal_strlit("5");
        }
        let s = "5";
        assert(s@ =~= seq![digit_char(5nat)]);
        s
    } else if d == 6 {
        proof {
            reveal_strlit("6");
        }
        let s = "6";
        assert(s@ =~= seq![digit_char(6nat)]);
        s
    } else if d == 7 {
        proof {
            reveal_strlit("7");
        }
        let s = "7";
        assert(s@ =~= seq![digit_char(7nat)]);
        s
    } else if d == 8 {
        proof {
            reveal_strlit("8");
        }
        let s = "8";
        assert(s@ =~= seq![digit_char(8nat)]);
        s
    } else {
        proof {
            reveal_strlit("9");
        }
        let s = "9";
        assert(s@ =~= seq![digit_char(9nat)]);
        s
    }
}

/// Render `n` in decimal.
pub fn decimal_string(n: usize) -> (s: String)
    ensures
        s@ == dec_digits(n as nat),
    decreases n,
{
    if n < 10 {
        String::from_str(digit_str(n))
    } else {
        let mut s = decimal_string(n / 10);
        s.append(digit_str(n % 10));
        proof {
            assert(dec_digits((n / 10) as nat) + seq![digit_char((n % 10) as nat)] =~= dec_digits(
                n as nat,
            ));
        }
        s
    }
}

} // verus!
