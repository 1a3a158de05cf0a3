//! Decimal rendering of integers and of microdegree fixed-point values, as
//! ASCII bytes. Used to synthesize object keys and feature identifiers.

use vstd::prelude::*;

verus! {

/// The decimal digits of `n`, most significant first, as ASCII bytes.
pub open spec fn dec_digits(n: nat) -> Seq<u8>
    decreases n,
{
    if n < 10 {
        seq![(n + 0x30) as u8]
    } else {
        dec_digits(n / 10) + seq![(n % 10 + 0x30) as u8]
    }
}

pub open spec fn pow10(k: nat) -> nat
    decreases k,
{
    if k == 0 {
        1nat
    } else {
        10 * pow10((k - 1) as nat)
    }
}

/// The digits of a fraction numerator `fp` over `10^k`, most significant
/// first, with leading zeros kept and trailing zeros dropped.
pub open spec fn frac_digits_k(fp: nat, k: nat) -> Seq<u8>
    decreases k,
{
    if fp == 0 || k == 0 {
        Seq::empty()
    } else {
        let p = pow10((k - 1) as nat);
        seq![(fp / p + 0x30) as u8] + frac_digits_k(fp % p, (k - 1) as nat)
    }
}

/// Decimal rendering of a nonnegative microdegree value: the integer part,
/// then — when the fractional part is not zero — a point and the fraction's
/// digits, trailing zeros trimmed.
pub open spec fn micro_rendered_abs(a: nat) -> Seq<u8> {
    if a % 1000000 == 0 {
        dec_digits(a / 1000000)
    } else {
        dec_digits(a / 1000000) + seq![0x2eu8] + frac_digits_k(a % 1000000, 6)
    }
}

/// Decimal rendering of a microdegree fixed-point value, with a leading
/// minus sign when negative.
pub open spec fn micro_rendered(v: int) -> Seq<u8> {
    if v < 0 {
        seq![0x2du8] + micro_rendered_abs((-v) as nat)
    } else {
        micro_rendered_abs(v as nat)
    }
}

/// Append the decimal digits of `n`.
pub fn push_dec(n: u64, out: &mut Vec<u8>)
    ensures
        final(out)@ == old(out)@ + dec_digits(n as nat),
    decreases n,
{
    if n < 10 {
        out.push((n as u8) + 0x30);
        proof {
            assert(out@ =~= old(out)@ + dec_digits(n as nat));
        }
    } else {
        assert(n / 10 < n) by (nonlinear_arith)
            requires
                n >= 10,
        ;
        push_dec(n / 10, out);
        out.push(((n % 10) as u8) + 0x30);
        proof {
            assert(out@ =~= old(out)@ + dec_digits(n as nat));
        }
    }
}

fn pow10_exec(k: u64) -> (r: u64)
    requires
        k <= 6,
    ensures
        r as nat == pow10(k as nat),
        r >= 1,
{
    proof {
        reveal_with_fuel(pow10, 8);
    }
    if k == 0 {
        1
    } else if k == 1 {
        10
    } else if k == 2 {
        100
    } else if k == 3 {
        1000
    } else if k == 4 {
        10000
    } else if k == 5 {
        100000
    } else {
        1000000
    }
}

/// Append the digits of the fraction `fp / 10^k`, trailing zeros trimmed.
fn push_frac_k(fp: u64, k: u64, out: &mut Vec<u8>)
    requires
        k <= 6,
        (fp as nat) < pow10(k as nat),
    ensures
        final(out)@ == old(out)@ + frac_digits_k(fp as nat, k as nat),
    decreases k,
{
    if fp == 0 {
        proof {
            assert(out@ =~= old(out)@ + frac_digits_k(fp as nat, k as nat));
        }
        return ;
    }
    proof {
        if k == 0 {
            assert(pow10(0) == 1);
        }
    }
    let p = pow10_exec(k - 1);
    proof {
        assert(pow10(k as nat) == 10 * pow10((k - 1) as nat));
    }
    let d = fp / p;
    assert(d < 10) by (nonlinear_arith)
        requires
            d == fp / p,
            fp < 10 * p,
            p >= 1,
    ;
    out.push((d as u8) + 0x30);
    push_frac_k(fp % p, k - 1, out);
    proof {
        assert(out@ =~= old(out)@ + frac_digits_k(fp as nat, k as nat));
    }
}

/// Append the decimal rendering of the microdegree value `v`.
pub fn push_micro(v: i64, out: &mut Vec<u8>)
    requires
        v > i64::MIN,
    ensures
        final(out)@ == old(out)@ + micro_rendered(v as int),
{
    let a: u64 = if v < 0 {
        out.push(0x2d);
        (-v) as u64
    } else {
        v as u64
    };
    let ghost mid = out@;
    let ip = a / 1000000;
    let fp = a % 1000000;
    push_dec(ip, out);
    if fp != 0 {
        out.push(0x2e);
        proof {
            reveal_with_fuel(pow10, 8);
        }
        push_frac_k(fp, 6, out);
    }
    proof {
        assert(mid + micro_rendered_abs(a as nat) =~= out@);
        if v < 0 {
            assert(out@ =~= old(out)@ + micro_rendered(v as int));
        }
    }
}

} // verus!
