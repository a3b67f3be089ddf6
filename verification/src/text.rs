//! Decimal rendering of the fixed-point scalar, for the odometry
//! record's log line.
//!
//! A value is shown as its nearest count of millionths: sign, integer
//! part, and, when the fraction is not zero, a point and the six
//! fraction digits with trailing zeros removed.

use vstd::prelude::*;
use vstd::string::StringExecFns;
use crate::fx::{self, Fx};

verus! {

/// The decimal digit character for `0 <= d <= 9`.
pub open spec fn digit_char(d: int) -> char {
    if d == 0 {
        '0'
    } else if d == 1 {
        '1'
    } else if d == 2 {
        '2'
    } else if d == 3 {
        '3'
    } else if d == 4 {
        '4'
    } else if d == 5 {
        '5'
    } else if d == 6 {
        '6'
    } else if d == 7 {
        '7'
    } else if d == 8 {
        '8'
    } else {
        '9'
    }
}

/// The decimal digits of `n`, most significant first, with no leading
/// zeros (a single zero for `n == 0`).
pub open spec fn dec_digits(n: nat) -> Seq<char>
    decreases n,
{
    if n < 10 {
        seq![digit_char(n as int)]
    } else {
        dec_digits(n / 10) + seq![digit_char((n % 10) as int)]
    }
}

/// The `k` lowest decimal digits of `f`, zero-padded on the left.
pub open spec fn padded_digits(f: nat, k: nat) -> Seq<char>
    decreases k,
{
    if k == 0 {
        Seq::<char>::empty()
    } else {
        padded_digits(f / 10, (k - 1) as nat) + seq![digit_char((f % 10) as int)]
    }
}

/// Strip trailing decimal zeros from a `k`-digit fraction: the reduced
/// fraction and how many digits of it remain.
pub open spec fn trimmed_frac(f: nat, k: nat) -> (nat, nat)
    decreases k,
{
    if k == 0 || f % 10 != 0 {
        (f, k)
    } else {
        trimmed_frac(f / 10, (k - 1) as nat)
    }
}

/// The rendering of a count of millionths: sign, integer part, and the
/// trimmed fraction after a point when it is not zero.
pub open spec fn millionths_text(m: int) -> Seq<char> {
    let mag = fx::abs_i(m) as nat;
    let sign = if m < 0 {
        seq!['-']
    } else {
        Seq::<char>::empty()
    };
    let ip = mag / 1000000;
    let fp = mag % 1000000;
    if fp == 0 {
        sign + dec_digits(ip)
    } else {
        sign + dec_digits(ip) + seq!['.'] + padded_digits(trimmed_frac(fp, 6).0, trimmed_frac(fp, 6).1)
    }
}

/// The rendering of a scalar: its nearest count of millionths, in
/// decimal.
pub open spec fn fx_text(v: int) -> Seq<char> {
    millionths_text(fx::rnd(v * 1000000, fx::SCALE as int))
}

/// Append one digit character.
fn push_digit(out: &mut String, d: u64)
    requires
        d < 10,
    ensures
        final(out)@ == old(out)@ + seq![digit_char(d as int)],
{
    let c: &'static str = if d == 0 {
        "0"
    } else if d == 1 {
        "1"
    } else if d == 2 {
        "2"
    } else if d == 3 {
        "3"
    } else if d == 4 {
        "4"
    } else if d == 5 {
        "5"
    } else if d == 6 {
        "6"
    } else if d == 7 {
        "7"
    } else if d == 8 {
        "8"
    } else {
        "9"
    };
    proof {
        reveal_strlit("0");
        reveal_strlit("1");
        reveal_strlit("2");
        reveal_strlit("3");
        reveal_strlit("4");
        reveal_strlit("5");
        reveal_strlit("6");
        reveal_strlit("7");
        reveal_strlit("8");
        reveal_strlit("9");
        assert(c@ =~= seq![digit_char(d as int)]);
    }
    out.append(c);
}

/// Append the decimal digits of `n`.
fn push_dec(out: &mut String, n: u64)
    ensures
        final(out)@ == old(out)@ + dec_digits(n as nat),
    decreases n,
{
    if n < 10 {
        push_digit(out, n);
    } else {
        let ghost pre = out@;
        push_dec(out, n / 10);
        push_digit(out, n % 10);
        proof {
            assert((pre + dec_digits((n / 10) as nat)) + seq![digit_char((n % 10) as int)] =~= pre
                + dec_digits(n as nat));
        }
    }
}

/// Append the `k` lowest digits of `f`, zero-padded.
fn push_padded(out: &mut String, f: u64, k: u64)
    ensures
        final(out)@ == old(out)@ + padded_digits(f as nat, k as nat),
    decreases k,
{
    if k == 0 {
        proof {
            assert(old(out)@ + padded_digits(f as nat, 0) =~= old(out)@);
        }
    } else {
        let ghost pre = out@;
        push_padded(out, f / 10, k - 1);
        push_digit(out, f % 10);
        proof {
            assert((pre + padded_digits((f / 10) as nat, (k - 1) as nat)) + seq![
                digit_char((f % 10) as int),
            ] =~= pre + padded_digits(f as nat, k as nat));
        }
    }
}

/// Strip trailing zeros from a fraction of `k` digits.
fn trim_frac(f: u64, k: u64) -> (r: (u64, u64))
    ensures
        (r.0 as nat, r.1 as nat) == trimmed_frac(f as nat, k as nat),
    decreases k,
{
    if k == 0 || f % 10 != 0 {
        (f, k)
    } else {
        trim_frac(f / 10, k - 1)
    }
}

/// Append the rendering of a count of millionths.
fn push_millionths(out: &mut String, m: i64)
    ensures
        final(out)@ == old(out)@ + millionths_text(m as int),
{
    let ghost pre = out@;
    let mag: u64 = if m < 0 {
        proof {
            reveal_strlit("-");
            assert("-"@ =~= seq!['-']);
        }
        out.append("-");
        (-(m as i128)) as u64
    } else {
        m as u64
    };
    let ip = mag / 1000000;
    let fp = mag % 1000000;
    let ghost sign: Seq<char> = if m < 0 {
        seq!['-']
    } else {
        Seq::<char>::empty()
    };
    proof {
        assert(pre + sign =~= out@);
    }
    let ghost mid = out@;
    push_dec(out, ip);
    if fp == 0 {
        proof {
            assert((pre + sign) + dec_digits(ip as nat) =~= pre + (sign + dec_digits(ip as nat)));
        }
    } else {
        proof {
            reveal_strlit(".");
            assert("."@ =~= seq!['.']);
        }
        out.append(".");
        let t = trim_frac(fp, 6);
        push_padded(out, t.0, t.1);
        proof {
            assert((((pre + sign) + dec_digits(ip as nat)) + seq!['.']) + padded_digits(
                trimmed_frac(fp as nat, 6).0,
                trimmed_frac(fp as nat, 6).1,
            ) =~= pre + (sign + dec_digits(ip as nat) + seq!['.'] + padded_digits(
                trimmed_frac(fp as nat, 6).0,
                trimmed_frac(fp as nat, 6).1,
            )));
        }
    }
}

/// Append the rendering of a scalar.
pub fn push_fx(out: &mut String, v: Fx)
    ensures
        final(out)@ == old(out)@ + fx_text(v@),
{
    push_millionths(out, v.to_millionths());
}

} // verus!
