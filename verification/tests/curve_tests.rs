use mmm_core::constants::MAX_TOTAL_PRICE;
use mmm_core::errors::MMMErrorCode;
use mmm_core::curve::{check_curve, get_sol_total_price_and_next_price};
use mmm_core::state::{Pool, CURVE_KIND_EXP, CURVE_KIND_LINEAR};

fn pool(curve_type: u8, spot_price: u64, curve_delta: u64) -> Pool {
    Pool {
        spot_price,
        curve_type,
        curve_delta,
        lp_fee_bp: 0,
        sellside_asset_amount: 0,
        buyside_payment_amount: 0,
        allowlists: Vec::new(),
    }
}

#[test]
fn check_curve_accepts_linear_any_delta() {
    assert_eq!(check_curve(CURVE_KIND_LINEAR, u64::MAX), Ok(()));
}

#[test]
fn check_curve_accepts_exponential_within_bp() {
    assert_eq!(check_curve(CURVE_KIND_EXP, 10000), Ok(()));
}

#[test]
fn check_curve_rejects_unknown_kind() {
    assert_eq!(check_curve(2, 0), Err(MMMErrorCode::InvalidCurveType));
}

#[test]
fn check_curve_rejects_wide_exponential_delta() {
    assert_eq!(check_curve(CURVE_KIND_EXP, 10001), Err(MMMErrorCode::InvalidCurveDelta));
}

#[test]
fn linear_buy_example() {
    // total = 3 * (2000 - 2 * 100) / 2 = 2700, next = 1000 - 300 = 700
    let p = pool(CURVE_KIND_LINEAR, 1000, 100);
    assert_eq!(get_sol_total_price_and_next_price(&p, 3, true), Ok((2700, 700)));
}

#[test]
fn linear_sell_example() {
    // total = 3 * (2000 + 4 * 100) / 2 = 3600, next = 1000 + 300 = 1300
    let p = pool(CURVE_KIND_LINEAR, 1000, 100);
    assert_eq!(get_sol_total_price_and_next_price(&p, 3, false), Ok((3600, 1300)));
}

#[test]
fn linear_buy_underflow_fails() {
    // 11 steps of 100 would drive the spot price negative
    let p = pool(CURVE_KIND_LINEAR, 1000, 100);
    assert_eq!(
        get_sol_total_price_and_next_price(&p, 11, true),
        Err(MMMErrorCode::NumericOverflow)
    );
}

#[test]
fn zero_quantity_fails() {
    let p = pool(CURVE_KIND_LINEAR, 1000, 100);
    assert_eq!(
        get_sol_total_price_and_next_price(&p, 0, true),
        Err(MMMErrorCode::NumericOverflow)
    );
}

#[test]
fn zero_total_fails() {
    let p = pool(CURVE_KIND_LINEAR, 0, 0);
    assert_eq!(
        get_sol_total_price_and_next_price(&p, 5, true),
        Err(MMMErrorCode::NumericOverflow)
    );
}

#[test]
fn unknown_kind_fails_pricing() {
    let p = pool(2, 1000, 100);
    assert_eq!(
        get_sol_total_price_and_next_price(&p, 1, true),
        Err(MMMErrorCode::InvalidCurveType)
    );
}

#[test]
fn total_price_ceiling_is_inclusive() {
    let p = pool(CURVE_KIND_LINEAR, MAX_TOTAL_PRICE, 0);
    assert_eq!(
        get_sol_total_price_and_next_price(&p, 1, true),
        Ok((MAX_TOTAL_PRICE, MAX_TOTAL_PRICE))
    );
    assert_eq!(
        get_sol_total_price_and_next_price(&p, 2, true),
        Err(MMMErrorCode::NumericOverflow)
    );
}

#[test]
fn exponential_buy_steps_round_down() {
    // 10000, then 10000*10000/11000 = 9090, then 9090*10000/11000 = 8263
    let p = pool(CURVE_KIND_EXP, 10000, 1000);
    assert_eq!(get_sol_total_price_and_next_price(&p, 3, true), Ok((27353, 7511)));
}

#[test]
fn exponential_sell_steps_round_down() {
    // grows first: 11000 then 12100
    let p = pool(CURVE_KIND_EXP, 10000, 1000);
    assert_eq!(get_sol_total_price_and_next_price(&p, 2, false), Ok((23100, 12100)));
}

#[test]
fn exponential_buy_zero_delta_charges_spot_each_unit() {
    let p = pool(CURVE_KIND_EXP, 5, 0);
    assert_eq!(get_sol_total_price_and_next_price(&p, 3, true), Ok((15, 5)));
}

#[test]
fn exponential_sell_tiny_price_cannot_grow() {
    // 1 * 10001 / 10000 rounds back down to 1: the sell total equals n times spot
    let p = pool(CURVE_KIND_EXP, 1, 1);
    assert_eq!(get_sol_total_price_and_next_price(&p, 2, false), Ok((2, 1)));
}

#[test]
fn linear_round_trip_breaks_even() {
    // sell 4 units to the pool, then buy them back at the lowered spot
    let p = pool(CURVE_KIND_LINEAR, 5000, 250);
    let (proceeds, lowered) = get_sol_total_price_and_next_price(&p, 4, true).unwrap();
    let after = pool(CURVE_KIND_LINEAR, lowered, 250);
    let (cost, back) = get_sol_total_price_and_next_price(&after, 4, false).unwrap();
    assert_eq!(cost, proceeds);
    assert_eq!(back, 5000);
}

#[test]
fn exponential_buy_total_under_n_times_spot() {
    let p = pool(CURVE_KIND_EXP, 10000, 1000);
    let (total, _) = get_sol_total_price_and_next_price(&p, 3, true).unwrap();
    assert!(total < 3 * 10000);
}

#[test]
fn exponential_sell_total_over_n_times_spot() {
    let p = pool(CURVE_KIND_EXP, 10000, 1000);
    let (total, _) = get_sol_total_price_and_next_price(&p, 2, false).unwrap();
    assert!(total > 2 * 10000);
}
