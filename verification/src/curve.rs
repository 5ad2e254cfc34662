//! The bonding-curve pricing engine.
//!
//! Given a pool's curve configuration, its current spot price and a
//! requested quantity, the engine computes the trade's total price and the
//! spot price that the pool quotes afterwards.  The exponential branches
//! iterate step by step on purpose: the per-step rounding is part of the
//! price, and iterating keeps every intermediate value small enough for the
//! overflow checks to be exact.

use vstd::prelude::*;
use vstd::arithmetic::div_mod::{
    lemma_div_by_multiple, lemma_div_is_ordered, lemma_div_pos_is_pos, lemma_fundamental_div_mod,
    lemma_mod_division_less_than_divisor,
};
use vstd::arithmetic::mul::{
    lemma_mul_inequality, lemma_mul_is_commutative, lemma_mul_is_distributive_add,
    lemma_mul_nonnegative, lemma_mul_strictly_positive,
};

use crate::constants::MAX_TOTAL_PRICE;
use crate::errors::MMMErrorCode;
use crate::state::{Pool, CURVE_KIND_EXP, CURVE_KIND_LINEAR};

verus! {

/// Total price of buying `n` units from a linear pool quoting spot price
/// `p` with step `delta`: the sum `p + (p - delta) + ... + (p - (n-1)*delta)`.
pub open spec fn linear_buy_total(p: int, delta: int, n: int) -> int {
    n * (2 * p - (n - 1) * delta) / 2
}

/// Spot price a linear pool quotes after `n` units were bought from it.
pub open spec fn linear_buy_next(p: int, delta: int, n: int) -> int {
    p - n * delta
}

/// Total price of selling `n` units to a linear pool: every unit is priced
/// one step above spot, `(p + delta) + ... + (p + n*delta)`.
pub open spec fn linear_sell_total(p: int, delta: int, n: int) -> int {
    n * (2 * p + (n + 1) * delta) / 2
}

/// Spot price a linear pool quotes after `n` units were sold to it.
pub open spec fn linear_sell_next(p: int, delta: int, n: int) -> int {
    p + n * delta
}

/// Every checked step of the linear buy computation stays within `u64`
/// range: twice the spot price, the accumulated step, the subtraction under
/// it, the full product, and the next spot price.
pub open spec fn linear_buy_ok(p: int, delta: int, n: int) -> bool {
    &&& n >= 1
    &&& 2 * p <= u64::MAX
    &&& (n - 1) * delta <= u64::MAX
    &&& (n - 1) * delta <= 2 * p
    &&& n * (2 * p - (n - 1) * delta) <= u64::MAX
    &&& n * delta <= u64::MAX
    &&& n * delta <= p
}

/// Every checked step of the linear sell computation stays within `u64`
/// range.
pub open spec fn linear_sell_ok(p: int, delta: int, n: int) -> bool {
    &&& n + 1 <= u64::MAX
    &&& (n + 1) * delta <= u64::MAX
    &&& 2 * p <= u64::MAX
    &&& 2 * p + (n + 1) * delta <= u64::MAX
    &&& n * (2 * p + (n + 1) * delta) <= u64::MAX
    &&& n * delta <= u64::MAX
    &&& p + n * delta <= u64::MAX
}

/// Unit price at step `i` of an exponential buy: the spot price decayed
/// `i` times by `delta` basis points, rounding down at each step.
pub open spec fn exp_buy_price(p: int, delta: int, i: nat) -> int
    decreases i,
{
    if i == 0 {
        p
    } else {
        exp_buy_price(p, delta, (i - 1) as nat) * 10000 / (delta + 10000)
    }
}

/// Total price of buying `n` units from an exponential pool: the first unit
/// costs spot, and each further unit the previous price decayed once.
pub open spec fn exp_buy_total(p: int, delta: int, n: nat) -> int
    decreases n,
{
    if n == 0 {
        0
    } else {
        exp_buy_total(p, delta, (n - 1) as nat) + exp_buy_price(p, delta, (n - 1) as nat)
    }
}

/// Unit price at step `i` of an exponential sell: the spot price grown `i`
/// times by `delta` basis points, rounding down at each step.
pub open spec fn exp_sell_price(p: int, delta: int, i: nat) -> int
    decreases i,
{
    if i == 0 {
        p
    } else {
        exp_sell_price(p, delta, (i - 1) as nat) * (delta + 10000) / 10000
    }
}

/// Total price of selling `n` units to an exponential pool: every unit is
/// priced one growth step above the price before it, so the first unit
/// already costs one step above spot.
pub open spec fn exp_sell_total(p: int, delta: int, n: nat) -> int
    decreases n,
{
    if n == 0 {
        0
    } else {
        exp_sell_total(p, delta, (n - 1) as nat) + exp_sell_price(p, delta, n)
    }
}

/// The mathematical total price of a trade of `n` units against `pool`,
/// before the range checks.
pub open spec fn curve_total(pool: Pool, n: u64, fulfill_buy: bool) -> int {
    let p = pool.spot_price as int;
    let d = pool.curve_delta as int;
    if pool.curve_type == CURVE_KIND_LINEAR {
        if fulfill_buy {
            linear_buy_total(p, d, n as int)
        } else {
            linear_sell_total(p, d, n as int)
        }
    } else {
        if fulfill_buy {
            exp_buy_total(p, d, n as nat)
        } else {
            exp_sell_total(p, d, n as nat)
        }
    }
}

/// The spot price the pool quotes after a trade of `n` units.
pub open spec fn curve_next(pool: Pool, n: u64, fulfill_buy: bool) -> int {
    let p = pool.spot_price as int;
    let d = pool.curve_delta as int;
    if pool.curve_type == CURVE_KIND_LINEAR {
        if fulfill_buy {
            linear_buy_next(p, d, n as int)
        } else {
            linear_sell_next(p, d, n as int)
        }
    } else {
        if fulfill_buy {
            exp_buy_price(p, d, n as nat)
        } else {
            exp_sell_price(p, d, n as nat)
        }
    }
}

/// Exactly when the pricing engine succeeds: a recognized curve kind, every
/// checked arithmetic step within range, and a total price that is nonzero
/// and under the protocol ceiling.
pub open spec fn curve_ok(pool: Pool, n: u64, fulfill_buy: bool) -> bool {
    let p = pool.spot_price as int;
    let d = pool.curve_delta as int;
    &&& pool.curve_type <= CURVE_KIND_EXP
    &&& (pool.curve_type == CURVE_KIND_LINEAR ==> if fulfill_buy {
        linear_buy_ok(p, d, n as int)
    } else {
        linear_sell_ok(p, d, n as int)
    })
    &&& 1 <= curve_total(pool, n, fulfill_buy) <= MAX_TOTAL_PRICE
}

/// One decay step never increases a nonnegative price and keeps it
/// nonnegative.
proof fn lemma_decay_step(x: int, d: int)
    requires
        0 <= x,
        0 <= d,
    ensures
        0 <= x * 10000 / (d + 10000) <= x,
{
    lemma_mul_inequality(10000, d + 10000, x);
    lemma_mul_is_commutative(10000, x);
    lemma_mul_is_commutative(d + 10000, x);
    lemma_div_is_ordered(x * 10000, x * (d + 10000), d + 10000);
    lemma_div_by_multiple(x, d + 10000);
    lemma_mul_nonnegative(x, 10000);
    lemma_div_pos_is_pos(x * 10000, d + 10000);
}

/// One growth step never decreases a nonnegative price and keeps it
/// nonnegative.
proof fn lemma_grow_step(x: int, d: int)
    requires
        0 <= x,
        0 <= d,
    ensures
        x <= x * (d + 10000) / 10000,
        0 <= x * (d + 10000) / 10000,
{
    lemma_mul_inequality(10000, d + 10000, x);
    lemma_mul_is_commutative(10000, x);
    lemma_mul_is_commutative(d + 10000, x);
    lemma_div_is_ordered(x * 10000, x * (d + 10000), 10000);
    lemma_div_by_multiple(x, 10000);
    lemma_mul_nonnegative(x, d + 10000);
    lemma_div_pos_is_pos(x * (d + 10000), 10000);
}

/// The decayed unit price stays between 0 and the spot price.
pub proof fn lemma_exp_buy_price_bounds(p: int, d: int, i: nat)
    requires
        0 <= p,
        0 <= d,
    ensures
        0 <= exp_buy_price(p, d, i) <= p,
    decreases i,
{
    if i > 0 {
        lemma_exp_buy_price_bounds(p, d, (i - 1) as nat);
        lemma_decay_step(exp_buy_price(p, d, (i - 1) as nat), d);
    }
}

/// The grown unit price never falls below the spot price.
pub proof fn lemma_exp_sell_price_lower(p: int, d: int, i: nat)
    requires
        0 <= p,
        0 <= d,
    ensures
        p <= exp_sell_price(p, d, i),
    decreases i,
{
    if i > 0 {
        lemma_exp_sell_price_lower(p, d, (i - 1) as nat);
        lemma_grow_step(exp_sell_price(p, d, (i - 1) as nat), d);
    }
}

/// An exponential buy's running total only grows with the quantity.
pub proof fn lemma_exp_buy_total_mono(p: int, d: int, m: nat, n: nat)
    requires
        0 <= p,
        0 <= d,
        m <= n,
    ensures
        exp_buy_total(p, d, m) <= exp_buy_total(p, d, n),
    decreases n,
{
    if m < n {
        lemma_exp_buy_total_mono(p, d, m, (n - 1) as nat);
        lemma_exp_buy_price_bounds(p, d, (n - 1) as nat);
    }
}

/// An exponential sell's running total only grows with the quantity.
pub proof fn lemma_exp_sell_total_mono(p: int, d: int, m: nat, n: nat)
    requires
        0 <= p,
        0 <= d,
        m <= n,
    ensures
        exp_sell_total(p, d, m) <= exp_sell_total(p, d, n),
    decreases n,
{
    if m < n {
        lemma_exp_sell_total_mono(p, d, m, (n - 1) as nat);
        lemma_exp_sell_price_lower(p, d, n);
    }
}

/// With a step of zero the decayed price never moves.
proof fn lemma_exp_buy_price_delta_zero(p: int, i: nat)
    requires
        0 <= p,
    ensures
        exp_buy_price(p, 0, i) == p,
    decreases i,
{
    if i > 0 {
        lemma_exp_buy_price_delta_zero(p, (i - 1) as nat);
        lemma_div_by_multiple(p, 10000);
    }
}

/// With a step of zero the grown price never moves.
proof fn lemma_exp_sell_price_delta_zero(p: int, i: nat)
    requires
        0 <= p,
    ensures
        exp_sell_price(p, 0, i) == p,
    decreases i,
{
    if i > 0 {
        lemma_exp_sell_price_delta_zero(p, (i - 1) as nat);
        lemma_div_by_multiple(p, 10000);
    }
}

/// A positive price decayed by a positive step loses at least one unit.
proof fn lemma_strict_decay(p: int, d: int)
    requires
        1 <= p,
        1 <= d,
    ensures
        p * 10000 / (d + 10000) <= p - 1,
{
    let a = p * 10000;
    let c = d + 10000;
    let q = a / c;
    lemma_fundamental_div_mod(a, c);
    lemma_mod_division_less_than_divisor(a, c);
    if q >= p {
        lemma_mul_inequality(p, q, c);
        lemma_mul_is_commutative(p, c);
        lemma_mul_is_commutative(q, c);
        lemma_mul_is_distributive_add(p, d, 10000);
        lemma_mul_strictly_positive(p, d);
        assert(false);
    }
}

/// A price whose product with the step reaches one whole basis-point
/// denominator grows by at least one unit.
proof fn lemma_strict_grow(p: int, d: int)
    requires
        0 <= p,
        0 <= d,
        p * d >= 10000,
    ensures
        p + 1 <= p * (d + 10000) / 10000,
{
    lemma_mul_is_distributive_add(p, d, 10000);
    lemma_div_is_ordered((p + 1) * 10000, p * (d + 10000), 10000);
    lemma_div_by_multiple(p + 1, 10000);
}

/// From the first decay on, a positive price on a positive step stays at
/// least one unit under spot.
proof fn lemma_exp_buy_price_strict(p: int, d: int, i: nat)
    requires
        1 <= p,
        1 <= d,
        1 <= i,
    ensures
        exp_buy_price(p, d, i) <= p - 1,
    decreases i,
{
    if i == 1 {
        lemma_strict_decay(p, d);
    } else {
        lemma_exp_buy_price_strict(p, d, (i - 1) as nat);
        lemma_exp_buy_price_bounds(p, d, (i - 1) as nat);
        lemma_decay_step(exp_buy_price(p, d, (i - 1) as nat), d);
    }
}

/// From the first growth on, a price whose product with the step reaches
/// one whole basis-point denominator stays at least one unit above spot.
proof fn lemma_exp_sell_price_strict(p: int, d: int, i: nat)
    requires
        0 <= p,
        0 <= d,
        p * d >= 10000,
        1 <= i,
    ensures
        p + 1 <= exp_sell_price(p, d, i),
    decreases i,
{
    assert(exp_sell_price(p, d, i) == exp_sell_price(p, d, (i - 1) as nat) * (d + 10000) / 10000);
    if i == 1 {
        assert(exp_sell_price(p, d, 0) == p);
        lemma_strict_grow(p, d);
    } else {
        lemma_exp_sell_price_strict(p, d, (i - 1) as nat);
        lemma_grow_step(exp_sell_price(p, d, (i - 1) as nat), d);
    }
}

/// Law: an exponential buy's price decays, so `n` units never cost more
/// than `n` times spot.  A zero step gives exactly `n` times spot; a
/// positive step on a positive spot price saves at least one unit per unit
/// after the first, so from the second unit on the total is strictly under
/// `n` times spot.
pub proof fn lemma_exp_buy_total_bounds(p: int, d: int, n: nat)
    requires
        0 <= p,
        0 <= d,
        1 <= n,
    ensures
        exp_buy_total(p, d, n) <= n * p,
        d == 0 ==> exp_buy_total(p, d, n) == n * p,
        (1 <= d && 1 <= p) ==> exp_buy_total(p, d, n) <= n * p - (n - 1),
    decreases n,
{
    if n == 1 {
        assert(exp_buy_total(p, d, 0) == 0);
        assert(exp_buy_price(p, d, 0) == p);
        assert(exp_buy_total(p, d, 1) == p);
    } else {
        lemma_exp_buy_total_bounds(p, d, (n - 1) as nat);
        lemma_exp_buy_price_bounds(p, d, (n - 1) as nat);
        if d == 0 {
            lemma_exp_buy_price_delta_zero(p, (n - 1) as nat);
        }
        if 1 <= d && 1 <= p {
            lemma_exp_buy_price_strict(p, d, (n - 1) as nat);
        }
        assert(n * p == (n - 1) * p + p) by (nonlinear_arith);
    }
}

/// Law: an exponential sell's price rises, so `n` units never bring less
/// than `n` times spot.  A zero step gives exactly `n` times spot; once
/// spot times step reaches one whole basis-point denominator, every unit is
/// at least one above spot, so the total strictly exceeds `n` times spot.
pub proof fn lemma_exp_sell_total_bounds(p: int, d: int, n: nat)
    requires
        0 <= p,
        0 <= d,
        1 <= n,
    ensures
        n * p <= exp_sell_total(p, d, n),
        d == 0 ==> exp_sell_total(p, d, n) == n * p,
        p * d >= 10000 ==> n * (p + 1) <= exp_sell_total(p, d, n),
    decreases n,
{
    if n == 1 {
        assert(exp_sell_total(p, d, 0) == 0);
        assert(exp_sell_total(p, d, 1) == exp_sell_price(p, d, 1));
        lemma_exp_sell_price_lower(p, d, 1);
        if d == 0 {
            lemma_exp_sell_price_delta_zero(p, 1);
        }
        if p * d >= 10000 {
            lemma_exp_sell_price_strict(p, d, 1);
        }
    } else {
        lemma_exp_sell_total_bounds(p, d, (n - 1) as nat);
        lemma_exp_sell_price_lower(p, d, n);
        if d == 0 {
            lemma_exp_sell_price_delta_zero(p, n);
        }
        if p * d >= 10000 {
            lemma_exp_sell_price_strict(p, d, n);
        }
        assert(n * p == (n - 1) * p + p) by (nonlinear_arith);
        assert(n * (p + 1) == (n - 1) * (p + 1) + (p + 1)) by (nonlinear_arith);
    }
}

/// Law: on a linear curve a round trip gives the trader no edge.  Selling
/// `n` units to the pool moves spot down `n` steps; buying the same `n`
/// units back, each priced one step above the lowered spot, costs exactly
/// the proceeds of the sale, and spot returns to where it started.
pub proof fn lemma_linear_round_trip(pool: Pool, n: u64)
    requires
        pool.curve_type == CURVE_KIND_LINEAR,
        1 <= n,
        n * pool.curve_delta <= pool.spot_price,
    ensures
        ({
            let lowered = Pool {
                spot_price: (pool.spot_price - n * pool.curve_delta) as u64,
                curve_type: pool.curve_type,
                curve_delta: pool.curve_delta,
                lp_fee_bp: pool.lp_fee_bp,
                sellside_asset_amount: pool.sellside_asset_amount,
                buyside_payment_amount: pool.buyside_payment_amount,
                allowlists: pool.allowlists,
            };
            &&& curve_total(lowered, n, false) == curve_total(pool, n, true)
            &&& curve_next(lowered, n, false) == pool.spot_price
        }),
{
    let p = pool.spot_price as int;
    let d = pool.curve_delta as int;
    let m = n as int;
    assert(m * (2 * (p - m * d) + (m + 1) * d) == m * (2 * p - (m - 1) * d)) by (nonlinear_arith);
}

/// Validates a curve configuration: only linear and exponential kinds are
/// recognized, and an exponential step is a basis-point ratio of at most
/// 10000.
pub fn check_curve(curve_type: u8, curve_delta: u64) -> (r: Result<(), MMMErrorCode>)
    ensures
        r is Ok <==> (curve_type <= CURVE_KIND_EXP && (curve_type == CURVE_KIND_EXP
            ==> curve_delta <= 10000)),
        r matches Err(e) ==> e == (if curve_type > CURVE_KIND_EXP {
            MMMErrorCode::InvalidCurveType
        } else {
            MMMErrorCode::InvalidCurveDelta
        }),
{
    if curve_type > CURVE_KIND_EXP {
        return Err(MMMErrorCode::InvalidCurveType);
    }
    if curve_type == CURVE_KIND_EXP && curve_delta > 10000 {
        return Err(MMMErrorCode::InvalidCurveDelta);
    }
    Ok(())
}

/// Computes the total price of trading `n` units against `pool` and the
/// spot price quoted afterwards.  `fulfill_buy` means the pool's buy order
/// is being filled, so its quote walks down the curve; otherwise the quote
/// walks up, one step ahead of spot, to deter draining the pool.
///
/// Succeeds exactly when the curve kind is recognized, every checked step
/// stays in range, and the total is nonzero and at most `MAX_TOTAL_PRICE`.
#[verifier::loop_isolation(false)]
pub fn get_sol_total_price_and_next_price(pool: &Pool, n: u64, fulfill_buy: bool) -> (r: Result<
    (u64, u64),
    MMMErrorCode,
>)
    requires
        pool.curve_type == CURVE_KIND_EXP ==> pool.curve_delta <= 10000,
    ensures
        r is Ok <==> curve_ok(*pool, n, fulfill_buy),
        r matches Ok(v) ==> v.0 == curve_total(*pool, n, fulfill_buy) && v.1 == curve_next(
            *pool,
            n,
            fulfill_buy,
        ),
        r matches Err(e) ==> e == (if pool.curve_type > CURVE_KIND_EXP {
            MMMErrorCode::InvalidCurveType
        } else {
            MMMErrorCode::NumericOverflow
        }),
{
    let p = pool.spot_price;
    let delta = pool.curve_delta;
    let ghost pi = p as int;
    let ghost di = delta as int;

    let (total_price, final_price): (u64, u64) = if fulfill_buy {
        if pool.curve_type == CURVE_KIND_LINEAR {
            // total = n * (2p - (n - 1) * delta) / 2
            let two_p = match p.checked_mul(2) {
                Some(v) => v,
                None => { return Err(MMMErrorCode::NumericOverflow) },
            };
            let n_minus_1 = match n.checked_sub(1) {
                Some(v) => v,
                None => { return Err(MMMErrorCode::NumericOverflow) },
            };
            let steps = match n_minus_1.checked_mul(delta) {
                Some(v) => v,
                None => { return Err(MMMErrorCode::NumericOverflow) },
            };
            let unit_sum = match two_p.checked_sub(steps) {
                Some(v) => v,
                None => { return Err(MMMErrorCode::NumericOverflow) },
            };
            let twice_total = match n.checked_mul(unit_sum) {
                Some(v) => v,
                None => { return Err(MMMErrorCode::NumericOverflow) },
            };
            let total = twice_total / 2;
            // next = p - n * delta
            let walked = match n.checked_mul(delta) {
                Some(v) => v,
                None => { return Err(MMMErrorCode::NumericOverflow) },
            };
            let next = match p.checked_sub(walked) {
                Some(v) => v,
                None => { return Err(MMMErrorCode::NumericOverflow) },
            };
            (total, next)
        } else if pool.curve_type == CURVE_KIND_EXP {
            let mut total: u64 = 0;
            let mut curr: u128 = p as u128;
            let mut i: u64 = 0;
            while i < n
                invariant
                    i <= n,
                    0 <= di,
                    curr == exp_buy_price(pi, di, i as nat),
                    total == exp_buy_total(pi, di, i as nat),
                    curr <= pi <= u64::MAX,
                decreases n - i,
            {
                let unit = curr as u64;
                total = match total.checked_add(unit) {
                    Some(v) => v,
                    None => {
                        proof {
                            assert(unit == curr);
                            assert(exp_buy_total(pi, di, (i + 1) as nat) == total + curr);
                            lemma_exp_buy_total_mono(pi, di, (i + 1) as nat, n as nat);
                            assert(curve_total(*pool, n, fulfill_buy) > u64::MAX);
                        }
                        return Err(MMMErrorCode::NumericOverflow);
                    },
                };
                proof {
                    lemma_decay_step(curr as int, di);
                }
                curr = curr * 10000 / (delta as u128 + 10000);
                i = i + 1;
            }
            (total, curr as u64)
        } else {
            return Err(MMMErrorCode::InvalidCurveType);
        }
    } else {
        if pool.curve_type == CURVE_KIND_LINEAR {
            // total = n * (2p + (n + 1) * delta) / 2
            let two_p = match p.checked_mul(2) {
                Some(v) => v,
                None => { return Err(MMMErrorCode::NumericOverflow) },
            };
            let n_plus_1 = match n.checked_add(1) {
                Some(v) => v,
                None => { return Err(MMMErrorCode::NumericOverflow) },
            };
            let steps = match n_plus_1.checked_mul(delta) {
                Some(v) => v,
                None => { return Err(MMMErrorCode::NumericOverflow) },
            };
            let unit_sum = match two_p.checked_add(steps) {
                Some(v) => v,
                None => { return Err(MMMErrorCode::NumericOverflow) },
            };
            let twice_total = match n.checked_mul(unit_sum) {
                Some(v) => v,
                None => { return Err(MMMErrorCode::NumericOverflow) },
            };
            let total = twice_total / 2;
            // next = p + n * delta
            let walked = match n.checked_mul(delta) {
                Some(v) => v,
                None => { return Err(MMMErrorCode::NumericOverflow) },
            };
            let next = match p.checked_add(walked) {
                Some(v) => v,
                None => { return Err(MMMErrorCode::NumericOverflow) },
            };
            (total, next)
        } else if pool.curve_type == CURVE_KIND_EXP {
            let mut total: u64 = 0;
            let mut curr: u128 = p as u128;
            let mut i: u64 = 0;
            while i < n
                invariant
                    i <= n,
                    0 <= di <= 10000,
                    curr == exp_sell_price(pi, di, i as nat),
                    total == exp_sell_total(pi, di, i as nat),
                    0 <= curr <= u64::MAX,
                decreases n - i,
            {
                proof {
                    lemma_grow_step(curr as int, di);
                    lemma_mul_inequality(di + 10000, 20010, curr as int);
                    lemma_mul_is_commutative(di + 10000, curr as int);
                    lemma_mul_is_commutative(20010, curr as int);
                    lemma_mul_inequality(curr as int, u64::MAX as int, 20010);
                    assert(curr * (di + 10000) <= u64::MAX * 20010);
                }
                let grown: u128 = curr * (delta as u128 + 10000) / 10000;
                let unit: u64 = match u64::try_from(grown) {
                    Ok(v) => v,
                    Err(_) => {
                        proof {
                            assert(exp_sell_price(pi, di, (i + 1) as nat) == grown);
                            assert(exp_sell_total(pi, di, (i + 1) as nat) == total + grown);
                            lemma_exp_sell_total_mono(pi, di, (i + 1) as nat, n as nat);
                            assert(curve_total(*pool, n, fulfill_buy) > u64::MAX);
                        }
                        return Err(MMMErrorCode::NumericOverflow);
                    },
                };
                total = match total.checked_add(unit) {
                    Some(v) => v,
                    None => {
                        proof {
                            assert(exp_sell_price(pi, di, (i + 1) as nat) == grown);
                            assert(exp_sell_total(pi, di, (i + 1) as nat) == total + grown);
                            lemma_exp_sell_total_mono(pi, di, (i + 1) as nat, n as nat);
                            assert(curve_total(*pool, n, fulfill_buy) > u64::MAX);
                        }
                        return Err(MMMErrorCode::NumericOverflow);
                    },
                };
                curr = grown;
                i = i + 1;
            }
            (total, curr as u64)
        } else {
            return Err(MMMErrorCode::InvalidCurveType);
        }
    };

    if total_price == 0 {
        return Err(MMMErrorCode::NumericOverflow);
    }
    if total_price > MAX_TOTAL_PRICE {
        return Err(MMMErrorCode::NumericOverflow);
    }
    Ok((total_price, final_price))
}

} // verus!

