//! Sine and cosine over fixed-point degrees.
//!
//! The half-turn kernel is Bhaskara I's rational approximation
//! `sin x ~ 4x(180 - x) / (40500 - x(180 - x))` for `x` in `[0, 180]`
//! degrees, carried out exactly in integer arithmetic. It is exact at
//! every multiple of 90 degrees and stays within about 0.2% of the true
//! sine elsewhere, which is the precision this layer offers.

use crate::fixed::{div_i128, div_trunc, euclid_mod, FX_ONE, FX_POSE_BOUND};
use vstd::prelude::*;
use vstd::arithmetic::div_mod::{
    lemma_div_is_ordered, lemma_div_multiples_vanish, lemma_div_pos_is_pos, lemma_mod_bound,
};

verus! {

/// A quarter turn, in fixed-point degrees.
pub const FX_DEG_90: i64 = 90 * 65536;

/// A half turn, in fixed-point degrees.
pub const FX_DEG_180: i64 = 180 * 65536;

/// A full turn, in fixed-point degrees.
pub const FX_DEG_360: i64 = 360 * 65536;

/// Bhaskara's kernel on `[0, 180]` fixed-point degrees.
pub open spec fn sin_arch_s(x: int) -> int {
    let u = x * (FX_DEG_180 as int - x);
    div_trunc(4 * u * (FX_ONE as int), 40500 * (FX_ONE as int) * (FX_ONE as int) - u)
}

/// Sine of `x` fixed-point degrees, a fixed-point scalar in `[-1, 1]`.
pub open spec fn sin_s(x: int) -> int {
    let xm = x % (FX_DEG_360 as int);
    if xm <= FX_DEG_180 as int {
        sin_arch_s(xm)
    } else {
        -sin_arch_s(xm - FX_DEG_180 as int)
    }
}

/// Cosine of `x` fixed-point degrees: the sine a quarter turn later.
pub open spec fn cos_s(x: int) -> int {
    sin_s(x + FX_DEG_90 as int)
}

/// The kernel maps `[0, 180]` degrees into `[0, 1]`.
pub proof fn lemma_sin_arch_bounds(x: int)
    requires
        0 <= x <= FX_DEG_180 as int,
    ensures
        0 <= sin_arch_s(x) <= FX_ONE as int,
{
    let one = FX_ONE as int;
    let u = x * (FX_DEG_180 as int - x);
    let num = 4 * u * one;
    let den = 40500 * one * one - u;
    assert(0 <= u && u <= 8100 * one * one) by (nonlinear_arith)
        requires
            0 <= x <= 180 * one,
            u == x * (180 * one - x),
            one == 65536,
    ;
    assert(num <= den * one) by (nonlinear_arith)
        requires
            num == 4 * u * one,
            den == 40500 * one * one - u,
            u <= 8100 * one * one,
            one == 65536,
    ;
    assert(0 <= num) by (nonlinear_arith)
        requires
            num == 4 * u * one,
            0 <= u,
            one == 65536,
    ;
    lemma_div_pos_is_pos(num, den);
    lemma_div_is_ordered(num, den * one, den);
    lemma_div_multiples_vanish(one, den);
}

/// Sines are fixed-point scalars in `[-1, 1]`.
pub proof fn lemma_sin_bounds(x: int)
    ensures
        -(FX_ONE as int) <= sin_s(x) <= FX_ONE as int,
{
    lemma_mod_bound(x, FX_DEG_360 as int);
    let xm = x % (FX_DEG_360 as int);
    if xm <= FX_DEG_180 as int {
        lemma_sin_arch_bounds(xm);
    } else {
        lemma_sin_arch_bounds(xm - FX_DEG_180 as int);
    }
}

/// The sine of zero degrees is exactly zero.
pub proof fn lemma_sin_zero()
    ensures
        sin_s(0) == 0,
{
    let one = FX_ONE as int;
    assert(0int % 23592960 == 0);
    assert(0int * (FX_DEG_180 as int - 0) == 0) by (nonlinear_arith);
    assert(4int * 0 * one == 0) by (nonlinear_arith);
    assert(40500 * one * one == 173946175488000) by (nonlinear_arith)
        requires
            one == 65536,
    ;
    vstd::arithmetic::div_mod::lemma_div_of0(173946175488000);
}

/// The sine of ninety degrees is exactly one.
pub proof fn lemma_sin_quarter()
    ensures
        sin_s(FX_DEG_90 as int) == FX_ONE as int,
{
    let one = FX_ONE as int;
    assert(5898240int % 23592960 == 5898240);
    let u = 5898240int * (FX_DEG_180 as int - 5898240);
    assert(u == 34789235097600) by (nonlinear_arith)
        requires
            u == 5898240int * (11796480 - 5898240),
    ;
    assert(40500 * one * one == 173946175488000) by (nonlinear_arith)
        requires
            one == 65536,
    ;
    let den = 40500 * one * one - u;
    let num = 4 * u * one;
    assert(num == den * one) by (nonlinear_arith)
        requires
            u == 34789235097600,
            den == 173946175488000 - u,
            num == 4 * u * one,
            one == 65536,
    ;
    vstd::arithmetic::div_mod::lemma_div_multiples_vanish(one, den);
    assert(den * one == one * den) by (nonlinear_arith);
    assert(0 <= num);
}

/// The cosine of zero degrees is exactly one.
pub proof fn lemma_cos_zero()
    ensures
        cos_s(0) == FX_ONE as int,
{
    lemma_sin_quarter();
}

/// Sine of `x` fixed-point degrees.
pub fn sin_fx(x: i64) -> (r: i64)
    requires
        -2 * (FX_POSE_BOUND as int) <= x <= 2 * (FX_POSE_BOUND as int),
    ensures
        r as int == sin_s(x as int),
        -(FX_ONE as int) <= r <= FX_ONE as int,
{
    proof {
        lemma_sin_bounds(x as int);
        lemma_mod_bound(x as int, FX_DEG_360 as int);
    }
    let xm: i64 = euclid_mod(x, FX_DEG_360);
    let (neg, xr): (bool, i64) = if xm <= FX_DEG_180 {
        (false, xm)
    } else {
        (true, xm - FX_DEG_180)
    };
    proof {
        let one = FX_ONE as int;
        let u = (xr as int) * (FX_DEG_180 as int - xr as int);
        assert(0 <= u && u <= 8100 * one * one) by (nonlinear_arith)
            requires
                0 <= xr as int <= 180 * one,
                u == (xr as int) * (180 * one - xr as int),
                one == 65536,
        ;
        lemma_sin_arch_bounds(xr as int);
    }
    let u: i128 = (xr as i128) * ((FX_DEG_180 - xr) as i128);
    let den: i128 = 40500 * (FX_ONE as i128) * (FX_ONE as i128) - u;
    let num: i128 = 4 * u * (FX_ONE as i128);
    let q: i128 = div_i128(num, den);
    proof {
        let one = FX_ONE as int;
        let ui = (xr as int) * (FX_DEG_180 as int - xr as int);
        lemma_div_pos_is_pos(4 * ui * one, 40500 * one * one - ui);
        lemma_div_is_ordered(
            4 * ui * one,
            (40500 * one * one - ui) * one,
            40500 * one * one - ui,
        );
        assert(4 * ui * one <= (40500 * one * one - ui) * one) by (nonlinear_arith)
            requires
                ui <= 8100 * one * one,
                0 <= ui,
                one == 65536,
        ;
        lemma_div_multiples_vanish(one, 40500 * one * one - ui);
    }
    let s: i64 = q as i64;
    if neg {
        -s
    } else {
        s
    }
}

/// Cosine of `x` fixed-point degrees.
pub fn cos_fx(x: i64) -> (r: i64)
    requires
        -(FX_POSE_BOUND as int) <= x <= FX_POSE_BOUND as int,
    ensures
        r as int == cos_s(x as int),
        -(FX_ONE as int) <= r <= FX_ONE as int,
{
    sin_fx(x + FX_DEG_90)
}

} // verus!
