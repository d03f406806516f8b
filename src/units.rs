use vstd::prelude::*;
use vstd::string::StringExecFns;

use crate::command::{suffix_of, Unit};

verus! {

/// Document steps in one unit of the layer (4000 steps per millionth).
pub const STEPS_PER_UNIT: u128 = 4_000_000_000;

pub open spec fn digit_char(d: int) -> char {
    if d == 0 {
        '0'
    } else if d == 1 {
        '1'
    } else if d == 2 {
        '2'
    } else if d == 3 {
        '3'
    } else if d == 4 {
        '4'
    } else if d == 5 {
        '5'
    } else if d == 6 {
        '6'
    } else if d == 7 {
        '7'
    } else if d == 8 {
        '8'
    } else {
        '9'
    }
}

/// The decimal digits of `n`, most significant first, with no leading zero.
pub open spec fn decimal(n: nat) -> Seq<char>
    decreases n,
{
    if n < 10 {
        seq![digit_char(n as int)]
    } else {
        decimal(n / 10).push(digit_char((n % 10) as int))
    }
}

/// The last `w` decimal digits of `n`, most significant first, zeros included.
pub open spec fn padded(n: nat, w: nat) -> Seq<char>
    decreases w,
{
    if w == 0 {
        Seq::empty()
    } else {
        padded(n / 10, (w - 1) as nat).push(digit_char((n % 10) as int))
    }
}

/// `s` without its trailing zeros.
pub open spec fn trim_zeros(s: Seq<char>) -> Seq<char>
    decreases s.len(),
{
    if s.len() > 0 && s.last() == '0' {
        trim_zeros(s.drop_last())
    } else {
        s
    }
}

pub open spec fn pow10(w: nat) -> nat
    decreases w,
{
    if w == 0 {
        1
    } else {
        10 * pow10((w - 1) as nat)
    }
}

pub open spec fn abs(v: int) -> nat {
    if v < 0 { (-v) as nat } else { v as nat }
}

/// A length of `v` document steps written in units, exactly: the sign, the
/// whole units, and, if any remain, a point and the fraction's digits (a
/// step is 25 hundred-billionths of a unit) without trailing zeros.
pub open spec fn length_text(v: int) -> Seq<char> {
    let whole = abs(v) / 4_000_000_000;
    let frac = (abs(v) % 4_000_000_000) * 25;
    (if v < 0 { seq!['-'] } else { Seq::empty() }) + decimal(whole) + (if frac == 0 {
        Seq::empty()
    } else {
        seq!['.'] + trim_zeros(padded(frac, 11))
    })
}

fn digit_str(d: u128) -> (r: &'static str)
    requires
        d < 10,
    ensures
        r@ == seq![digit_char(d as int)],
{
    proof {
        reveal_strlit("0");
        reveal_strlit("1");
        reveal_strlit("2");
        reveal_strlit("3");
        reveal_strlit("4");
        reveal_strlit("5");
        reveal_strlit("6");
        reveal_strlit("7");
        reveal_strlit("8");
        reveal_strlit("9");
    }
    if d == 0 {
        "0"
    } else if d == 1 {
        "1"
    } else if d == 2 {
        "2"
    } else if d == 3 {
        "3"
    } else if d == 4 {
        "4"
    } else if d == 5 {
        "5"
    } else if d == 6 {
        "6"
    } else if d == 7 {
        "7"
    } else if d == 8 {
        "8"
    } else {
        "9"
    }
}

fn push_decimal(s: &mut String, n: u128)
    ensures
        final(s)@ == old(s)@ + decimal(n as nat),
    decreases n,
{
    if n >= 10 {
        push_decimal(s, n / 10);
    }
    s.append(digit_str(n % 10));
    proof {
        if n >= 10 {
            assert(old(s)@ + decimal(n as nat) =~= old(s)@ + decimal((n / 10) as nat) + seq![
                digit_char((n % 10) as int),
            ]);
        }
    }
}

fn push_padded(s: &mut String, n: u128, w: u32)
    ensures
        final(s)@ == old(s)@ + padded(n as nat, w as nat),
    decreases w,
{
    if w > 0 {
        push_padded(s, n / 10, w - 1);
        s.append(digit_str(n % 10));
        proof {
            assert(old(s)@ + padded(n as nat, w as nat) =~= old(s)@ + padded(
                (n / 10) as nat,
                (w - 1) as nat,
            ) + seq![digit_char((n % 10) as int)]);
        }
    } else {
        proof {
            assert(old(s)@ + padded(n as nat, w as nat) =~= old(s)@);
        }
    }
}

proof fn lemma_trim_padded(n: nat, w: nat)
    requires
        w > 0,
        n % 10 == 0,
    ensures
        trim_zeros(padded(n, w)) == trim_zeros(padded(n / 10, (w - 1) as nat)),
{
    assert(padded(n, w).drop_last() =~= padded(n / 10, (w - 1) as nat));
}

proof fn lemma_padded_ends(n: nat, w: nat)
    requires
        w > 0,
        n % 10 != 0,
    ensures
        trim_zeros(padded(n, w)) == padded(n, w),
{
}

/// `v` written in units, exactly (see `length_text`).
pub fn length_number(v: i128) -> (r: String)
    ensures
        r@ == length_text(v as int),
{
    let a: u128 = if v < 0 {
        ((-(v + 1)) as u128) + 1
    } else {
        v as u128
    };
    let mut s = String::new();
    if v < 0 {
        proof {
            reveal_strlit("-");
        }
        s.append("-");
    }
    push_decimal(&mut s, a / STEPS_PER_UNIT);
    let frac: u128 = (a % STEPS_PER_UNIT) * 25;
    if frac != 0 {
        proof {
            reveal_strlit(".");
        }
        s.append(".");
        let mut f: u128 = frac;
        let mut w: u32 = 11;
        proof {
            reveal_with_fuel(pow10, 12);
        }
        while f % 10 == 0
            invariant
                0 < f < pow10(w as nat),
                1 <= w <= 11,
                trim_zeros(padded(frac as nat, 11)) == trim_zeros(padded(f as nat, w as nat)),
            decreases f,
        {
            proof {
                lemma_trim_padded(f as nat, w as nat);
                if w == 1 {
                    assert(pow10(1) == 10) by {
                        reveal_with_fuel(pow10, 2);
                    }
                }
                assert(pow10(w as nat) == 10 * pow10((w - 1) as nat));
            }
            f = f / 10;
            w = w - 1;
        }
        proof {
            lemma_padded_ends(f as nat, w as nat);
        }
        push_padded(&mut s, f, w);
    }
    s
}

/// A length of `v` document steps followed by the suffix of `unit`.
pub fn with_unit(v: i128, unit: Unit) -> (r: String)
    ensures
        r@ == length_text(v as int) + suffix_of(unit),
{
    let mut s = length_number(v);
    s.append(unit.suffix());
    s
}

} // verus!
