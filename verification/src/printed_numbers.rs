//! Numbers printed with a fixed number of decimals, such as `2.5m` or
//! `1.25 GB`.
//!
//! The quantities are figured from whole numbers, and printed as a value
//! stored in binary floating point prints: rounded to the nearest printed
//! digit; a value exactly halfway between two printed digits is first stored
//! as the binary double nearest to it, which decides the side, and a halfway
//! value that binary stores exactly goes to the even digit.
use vstd::prelude::*;
use crate::text::{decimal, digit_char, digit_to_char, push_decimal};

verus! {

/// 2^52: a binary double carries a 53-bit significand, from 2^52 up to
/// (not including) 2^53.
pub const TWO_POW_52: u64 = 4503599627370496;

/// Doubles a positive `x` until it reaches `den`·2^52. For `x` = m this is
/// m·2^p, where (m/den)·2^p is the significand of m/den, scaled to 53 bits,
/// before it is rounded to a binary double.
pub open spec fn significand_scaled(x: nat, den: nat) -> nat
    decreases (if 0 < x < den * TWO_POW_52 {
        den * TWO_POW_52 - x
    } else {
        0
    }),
{
    if 0 < x < den * TWO_POW_52 {
        significand_scaled(2 * x, den)
    } else {
        x
    }
}

/// n/d rounded to the nearest whole number, a half to the even one.
pub open spec fn rounded_half_even(n: nat, d: nat) -> nat {
    let q = n / d;
    let r = n % d;
    if 2 * r < d {
        q
    } else if 2 * r > d {
        q + 1
    } else if q % 2 == 0 {
        q
    } else {
        q + 1
    }
}

/// n/d, a count of the last printed digit, rounded as a binary double prints
/// it. Off the halfway point it is the nearest whole number. Exactly halfway,
/// q + 1/2 with q = n/d, the printed value is m/den with m = 2q + 1: if
/// binary stores m/den exactly (the scaled significand is a multiple of
/// `den`), the half goes to the even count; otherwise to the side of the
/// binary double nearest to m/den.
pub open spec fn rounded_printed(n: nat, d: nat, den: nat) -> nat {
    let q = n / d;
    let r = n % d;
    let s = significand_scaled(2 * q + 1, den) % den;
    if 2 * r < d {
        q
    } else if 2 * r > d {
        q + 1
    } else if s == 0 {
        if q % 2 == 0 {
            q
        } else {
            q + 1
        }
    } else if 2 * s > den {
        q + 1
    } else {
        q
    }
}

/// A number of tenths written with one decimal, such as `12.5`.
pub open spec fn tenths_text(t: nat) -> Seq<char> {
    decimal(t / 10) + seq!['.', digit_char(t % 10)]
}

/// A number of hundredths written with two decimals, such as `1.25`.
pub open spec fn hundredths_text(h: nat) -> Seq<char> {
    decimal(h / 100) + seq!['.', digit_char((h / 10) % 10), digit_char(h % 10)]
}

/// `den`·2^52 · 2 fits in a `u64` for the denominators used here.
proof fn lemma_scale_fits(den: u64)
    requires
        2 <= den <= 200,
    ensures
        2 * (den * TWO_POW_52) < u64::MAX,
{
}

/// The significand of m/den scaled to 53 bits, modulo `den`.
fn scaled_significand_rem(m: u64, den: u64) -> (s: u64)
    requires
        2 <= den <= 200,
        0 < m < den * TWO_POW_52,
    ensures
        s == significand_scaled(m as nat, den as nat) % (den as nat),
{
    proof {
        lemma_scale_fits(den);
    }
    let limit: u64 = den * TWO_POW_52;
    let mut x: u64 = m;
    while x < limit
        invariant
            limit == den * TWO_POW_52,
            2 * limit < u64::MAX,
            0 < x < 2 * limit,
            significand_scaled(x as nat, den as nat) == significand_scaled(m as nat, den as nat),
        decreases (if x < limit {
            limit - x
        } else {
            0
        }),
    {
        x = 2 * x;
    }
    x % den
}

/// A quotient by `d` of at least `least`, where `least`·`den` is at least
/// 2^14, leaves 2q + 1 below `den`·2^52.
pub proof fn lemma_quotient_fits(n: u64, d: u64, least: u64, den: u64)
    requires
        d >= least,
        least >= 1,
        2 <= den <= 200,
        least * den >= 16384,
    ensures
        2 * (n / d) + 1 < den * TWO_POW_52,
{
    let q: int = n as int / least as int;
    vstd::arithmetic::div_mod::lemma_div_is_ordered_by_denominator(n as int, least as int, d as int);
    vstd::arithmetic::div_mod::lemma_fundamental_div_mod(n as int, least as int);
    assert(q * least <= n);
    assert(q * (least * den) <= n * den) by (nonlinear_arith)
        requires
            q * least <= n,
            den >= 0,
    {
    }
    assert(q * 16384 <= q * (least * den)) by (nonlinear_arith)
        requires
            least * den >= 16384,
            q >= 0,
    {
    }
    assert(n * den < 18446744073709551616 * den) by (nonlinear_arith)
        requires
            n < 18446744073709551616,
            den >= 2,
    {
    }
    assert(q < den * 1125899906842624);
}

/// n/d rounded to the nearest whole number, a half to the even one.
pub fn round_half_even(n: u64, d: u64) -> (q: u64)
    requires
        d >= 2,
    ensures
        q == rounded_half_even(n as nat, d as nat),
{
    let q = n / d;
    let r = n % d;
    assert(q <= n / 2) by {
        vstd::arithmetic::div_mod::lemma_div_is_ordered_by_denominator(n as int, 2, d as int);
    }
    if r < d - r {
        q
    } else if r > d - r {
        q + 1
    } else if q % 2 == 0 {
        q
    } else {
        q + 1
    }
}

/// n/d rounded as [`rounded_printed`] says.
pub fn round_printed(n: u64, d: u64, den: u64) -> (t: u64)
    requires
        d >= 2,
        2 <= den <= 200,
        2 * (n / d) + 1 < den * TWO_POW_52,
    ensures
        t == rounded_printed(n as nat, d as nat, den as nat),
{
    let q = n / d;
    let r = n % d;
    if r < d - r {
        q
    } else if r > d - r {
        q + 1
    } else {
        let s = scaled_significand_rem(2 * q + 1, den);
        if s == 0 {
            if q % 2 == 0 {
                q
            } else {
                q + 1
            }
        } else if s > den - s {
            q + 1
        } else {
            q
        }
    }
}

/// Appends a number of tenths written with one decimal.
pub fn push_tenths(dst: &mut Vec<char>, t: u64)
    ensures
        final(dst)@ == old(dst)@ + tenths_text(t as nat),
{
    push_decimal(dst, t / 10);
    dst.push('.');
    dst.push(digit_to_char(t % 10));
}

/// Appends a number of hundredths written with two decimals.
pub fn push_hundredths(dst: &mut Vec<char>, h: u64)
    ensures
        final(dst)@ == old(dst)@ + hundredths_text(h as nat),
{
    push_decimal(dst, h / 100);
    dst.push('.');
    dst.push(digit_to_char((h / 10) % 10));
    dst.push(digit_to_char(h % 10));
}

} // verus!
