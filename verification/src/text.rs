//! Integers as decimal text.

use vstd::prelude::*;

verus! {

/// The character of the decimal digit `d`.
pub open spec fn digit(d: int) -> char {
    if d == 0 {
        '0'
    } else if d == 1 {
        '1'
    } else if d == 2 {
        '2'
    } else if d == 3 {
        '3'
    } else if d == 4 {
        '4'
    } else if d == 5 {
        '5'
    } else if d == 6 {
        '6'
    } else if d == 7 {
        '7'
    } else if d == 8 {
        '8'
    } else {
        '9'
    }
}

/// The decimal digits of `n`, most significant first, without leading
/// zeros; zero is the single digit `0`.
pub open spec fn natural_digits(n: nat) -> Seq<char>
    decreases n,
{
    if n < 10 {
        seq![digit(n as int)]
    } else {
        natural_digits(n / 10).push(digit((n % 10) as int))
    }
}

/// The decimal notation of `n`, with a minus sign in front of a negative
/// number.
pub open spec fn decimal(n: int) -> Seq<char> {
    if n < 0 {
        seq!['-'] + natural_digits((-n) as nat)
    } else {
        natural_digits(n as nat)
    }
}

/// The decimal digit `d` as text.
fn digit_text(d: u64) -> (text: &'static str)
    requires
        d < 10,
    ensures
        text@ == seq![digit(d as int)],
{
    proof {
        reveal_strlit("0");
        reveal_strlit("1");
        reveal_strlit("2");
        reveal_strlit("3");
        reveal_strlit("4");
        reveal_strlit("5");
        reveal_strlit("6");
        reveal_strlit("7");
        reveal_strlit("8");
        reveal_strlit("9");
    }
    let text = if d == 0 {
        "0"
    } else if d == 1 {
        "1"
    } else if d == 2 {
        "2"
    } else if d == 3 {
        "3"
    } else if d == 4 {
        "4"
    } else if d == 5 {
        "5"
    } else if d == 6 {
        "6"
    } else if d == 7 {
        "7"
    } else if d == 8 {
        "8"
    } else {
        "9"
    };
    assert(text@ =~= seq![digit(d as int)]);
    text
}

/// The decimal notation of `n`.
pub fn decimal_text(n: i64) -> (text: String)
    ensures
        text@ == decimal(n as int),
{
    let magnitude: u64 = if n < 0 {
        (-(n + 1)) as u64 + 1
    } else {
        n as u64
    };
    let mut text = String::from_str(digit_text(magnitude % 10));
    let mut rest: u64 = magnitude / 10;
    while rest > 0
        invariant
            natural_digits(magnitude as nat) == if rest > 0 {
                natural_digits(rest as nat) + text@
            } else {
                text@
            },
        decreases rest,
    {
        let ghost before = text@;
        text = String::from_str(digit_text(rest % 10)).concat(text.as_str());
        proof {
            let d = seq![digit((rest % 10) as int)];
            assert(text@ == d + before);
            if rest >= 10 {
                assert(natural_digits(rest as nat) + before =~= natural_digits((rest / 10) as nat)
                    + (d + before));
            } else {
                assert(natural_digits(rest as nat) =~= d);
            }
        }
        rest = rest / 10;
    }
    if n < 0 {
        proof {
            reveal_strlit("-");
        }
        text = String::from_str("-").concat(text.as_str());
        assert(text@ =~= decimal(n as int));
    }
    text
}

} // verus!
