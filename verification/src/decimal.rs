//! Decimal rendering of unsigned integers, for URLs that carry a count.

use vstd::prelude::*;
use vstd::string::StringExecFns;

verus! {

/// The character for one decimal digit.
pub open spec fn digit_char(d: int) -> char {
    if d == 0 {
        '0'
    } else if d == 1 {
        '1'
    } else if d == 2 {
        '2'
    } else if d == 3 {
        '3'
    } else if d == 4 {
        '4'
    } else if d == 5 {
        '5'
    } else if d == 6 {
        '6'
    } else if d == 7 {
        '7'
    } else if d == 8 {
        '8'
    } else {
        '9'
    }
}

/// The decimal rendering of `n`, most significant digit first, no sign and
/// no leading zeros (`0` itself renders as "0").
pub open spec fn dec_rep(n: int) -> Seq<char>
    decreases n,
{
    if n < 10 {
        seq![digit_char(n)]
    } else {
        dec_rep(n / 10).push(digit_char(n % 10))
    }
}

fn digit_str(d: u64) -> (r: &'static str)
    requires
        d < 10,
    ensures
        r@ == seq![digit_char(d as int)],
{
    proof {
        reveal_strlit("0");
        reveal_strlit("1");
        reveal_strlit("2");
        reveal_strlit("3");
        reveal_strlit("4");
        reveal_strlit("5");
        reveal_strlit("6");
        reveal_strlit("7");
        reveal_strlit("8");
        reveal_strlit("9");
    }
    let r: &'static str = if d == 0 {
        "0"
    } else if d == 1 {
        "1"
    } else if d == 2 {
        "2"
    } else if d == 3 {
        "3"
    } else if d == 4 {
        "4"
    } else if d == 5 {
        "5"
    } else if d == 6 {
        "6"
    } else if d == 7 {
        "7"
    } else if d == 8 {
        "8"
    } else {
        "9"
    };
    proof {
        assert(r@ =~= seq![digit_char(d as int)]);
    }
    r
}

/// Renders `n` in decimal.
pub fn u64_to_dec(n: u64) -> (r: String)
    ensures
        r@ == dec_rep(n as int),
    decreases n,
{
    if n < 10 {
        let r = String::from_str(digit_str(n));
        proof {
            assert(r@ =~= dec_rep(n as int));
        }
        r
    } else {
        let mut r = u64_to_dec(n / 10);
        r.append(digit_str(n % 10));
        proof {
            assert(r@ =~= dec_rep(n as int));
        }
        r
    }
}

/// Renders a `usize` count in decimal.
pub fn usize_to_dec(n: usize) -> (r: String)
    ensures
        r@ == dec_rep(n as int),
{
    u64_to_dec(n as u64)
}

} // verus!
