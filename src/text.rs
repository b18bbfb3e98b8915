//! Decimal rendering of integers.
use vstd::prelude::*;

verus! {

/// The character of a decimal digit.
pub open spec fn digit_char(d: nat) -> char {
    if d == 0 {
        '0'
    } else if d == 1 {
        '1'
    } else if d == 2 {
        '2'
    } else if d == 3 {
        '3'
    } else if d == 4 {
        '4'
    } else if d == 5 {
        '5'
    } else if d == 6 {
        '6'
    } else if d == 7 {
        '7'
    } else if d == 8 {
        '8'
    } else {
        '9'
    }
}

/// The decimal digits of a natural number, most significant first.
pub open spec fn digits(n: nat) -> Seq<char>
    decreases n,
{
    if n < 10 {
        seq![digit_char(n)]
    } else {
        digits(n / 10) + seq![digit_char(n % 10)]
    }
}

/// The decimal text of an integer, with a leading `-` when negative.
pub open spec fn decimal(n: int) -> Seq<char> {
    if n < 0 {
        seq!['-'] + digits((-n) as nat)
    } else {
        digits(n as nat)
    }
}

/// The one-character text of a decimal digit.
fn digit_str(d: u64) -> (r: &'static str)
    requires
        d < 10,
    ensures
        r@ == seq![digit_char(d as nat)],
{
    proof {
        reveal_strlit("0");
        reveal_strlit("1");
        reveal_strlit("2");
        reveal_strlit("3");
        reveal_strlit("4");
        reveal_strlit("5");
        reveal_strlit("6");
        reveal_strlit("7");
        reveal_strlit("8");
        reveal_strlit("9");
    }
    let r = if d == 0 {
        "0"
    } else if d == 1 {
        "1"
    } else if d == 2 {
        "2"
    } else if d == 3 {
        "3"
    } else if d == 4 {
        "4"
    } else if d == 5 {
        "5"
    } else if d == 6 {
        "6"
    } else if d == 7 {
        "7"
    } else if d == 8 {
        "8"
    } else {
        "9"
    };
    assert(r@ =~= seq![digit_char(d as nat)]);
    r
}

/// The decimal text of an unsigned integer.
pub fn decimal_u64(n: u64) -> (r: String)
    ensures
        r@ == decimal(n as int),
{
    let mut acc = String::from_str(digit_str(n % 10));
    let mut m: u64 = n / 10;
    while m > 0
        invariant
            digits(n as nat) == (if m == 0 {
                Seq::empty()
            } else {
                digits(m as nat)
            }) + acc@,
        decreases m,
    {
        let d = digit_str(m % 10);
        acc = String::from_str(d).concat(acc.as_str());
        proof {
            if m / 10 > 0 {
                assert(digits(m as nat) == digits((m / 10) as nat) + seq![digit_char((m % 10) as nat)]);
            } else {
                assert(digits(m as nat) == seq![digit_char((m % 10) as nat)]);
            }
        }
        m = m / 10;
        assert(digits(n as nat) == (if m == 0 {
            Seq::empty()
        } else {
            digits(m as nat)
        }) + acc@);
    }
    assert(digits(n as nat) =~= Seq::<char>::empty() + acc@);
    acc
}

/// The decimal text of a signed integer.
pub fn decimal_i64(n: i64) -> (r: String)
    ensures
        r@ == decimal(n as int),
{
    if n < 0 {
        let magnitude: u64 = (0i128 - n as i128) as u64;
        proof {
            reveal_strlit("-");
        }
        let r = String::from_str("-").concat(decimal_u64(magnitude).as_str());
        assert(r@ =~= seq!['-'] + digits((-n) as nat));
        r
    } else {
        decimal_u64(n as u64)
    }
}

} // verus!
