use mmm_core::errors::MMMErrorCode;
use mmm_core::ledger::{
    create_pool, deposit_sell, sol_deposit_buy, sol_fulfill_buy, sol_fulfill_sell,
    sol_withdraw_buy, try_close_escrow, try_close_pool, try_close_sell_state, update_pool,
    withdraw_sell, CreatePoolArgs,
};
use mmm_core::state::{
    Allowlist, AssetMetadata, Pool, SellState, ALLOWLIST_KIND_FVCA, ALLOWLIST_KIND_MINT,
    CURVE_KIND_LINEAR,
};

fn linear_pool(spot: u64, delta: u64, lp_fee_bp: u16, sellside: u64, buyside: u64) -> Pool {
    Pool {
        spot_price: spot,
        curve_type: CURVE_KIND_LINEAR,
        curve_delta: delta,
        lp_fee_bp,
        sellside_asset_amount: sellside,
        buyside_payment_amount: buyside,
        allowlists: vec![Allowlist { kind: ALLOWLIST_KIND_MINT, value: 42 }],
    }
}

fn metadata(royalty_bp: u16) -> AssetMetadata {
    AssetMetadata {
        creators: None,
        collection: None,
        uri: Vec::new(),
        seller_fee_basis_points: royalty_bp,
        token_standard: None,
    }
}

#[test]
fn create_pool_validates_and_zeroes_balances() {
    let args = CreatePoolArgs {
        spot_price: 1000,
        curve_type: CURVE_KIND_LINEAR,
        curve_delta: 100,
        lp_fee_bp: 250,
        allowlists: vec![Allowlist { kind: ALLOWLIST_KIND_FVCA, value: 7 }],
    };
    let pool = create_pool(args).unwrap();
    assert_eq!(pool.spot_price, 1000);
    assert_eq!(pool.curve_delta, 100);
    assert_eq!(pool.lp_fee_bp, 250);
    assert_eq!(pool.sellside_asset_amount, 0);
    assert_eq!(pool.buyside_payment_amount, 0);
    assert_eq!(pool.allowlists.len(), 1);
}

#[test]
fn create_pool_rejects_bad_curve_kind() {
    let args = CreatePoolArgs {
        spot_price: 1,
        curve_type: 2,
        curve_delta: 0,
        lp_fee_bp: 0,
        allowlists: Vec::new(),
    };
    assert!(matches!(create_pool(args), Err(MMMErrorCode::InvalidCurveType)));
}

#[test]
fn create_pool_rejects_wide_exponential_delta() {
    let args = CreatePoolArgs {
        spot_price: 1,
        curve_type: 1,
        curve_delta: 10001,
        lp_fee_bp: 0,
        allowlists: Vec::new(),
    };
    assert!(matches!(create_pool(args), Err(MMMErrorCode::InvalidCurveDelta)));
}

#[test]
fn create_pool_rejects_wide_lp_fee() {
    let args = CreatePoolArgs {
        spot_price: 1,
        curve_type: 0,
        curve_delta: 0,
        lp_fee_bp: 10001,
        allowlists: Vec::new(),
    };
    assert!(matches!(create_pool(args), Err(MMMErrorCode::InvalidBP)));
}

#[test]
fn create_pool_rejects_malformed_allowlist() {
    let args = CreatePoolArgs {
        spot_price: 1,
        curve_type: 0,
        curve_delta: 0,
        lp_fee_bp: 0,
        allowlists: vec![Allowlist { kind: ALLOWLIST_KIND_FVCA, value: 0 }],
    };
    assert!(matches!(create_pool(args), Err(MMMErrorCode::InvalidAllowLists)));
}

#[test]
fn update_pool_replaces_config_and_keeps_balances() {
    let mut pool = linear_pool(1000, 100, 0, 4, 600);
    assert_eq!(update_pool(&mut pool, 2000, 1, 500, 100), Ok(()));
    assert_eq!(pool.spot_price, 2000);
    assert_eq!(pool.curve_type, 1);
    assert_eq!(pool.curve_delta, 500);
    assert_eq!(pool.lp_fee_bp, 100);
    assert_eq!(pool.sellside_asset_amount, 4);
    assert_eq!(pool.buyside_payment_amount, 600);
}

#[test]
fn update_pool_rejects_and_keeps_state() {
    let mut pool = linear_pool(1000, 100, 0, 4, 600);
    assert_eq!(update_pool(&mut pool, 2000, 1, 10001, 0), Err(MMMErrorCode::InvalidCurveDelta));
    assert_eq!(pool.spot_price, 1000);
    assert_eq!(pool.curve_type, CURVE_KIND_LINEAR);
}

#[test]
fn payment_deposit_and_withdraw_round_trip() {
    let mut pool = linear_pool(1000, 100, 0, 0, 0);
    assert_eq!(sol_deposit_buy(&mut pool, 700), Ok(()));
    assert_eq!(pool.buyside_payment_amount, 700);
    assert_eq!(sol_withdraw_buy(&mut pool, 200), Ok(()));
    assert_eq!(pool.buyside_payment_amount, 500);
}

#[test]
fn payment_deposit_overflow_fails_clean() {
    let mut pool = linear_pool(1000, 100, 0, 0, u64::MAX);
    assert_eq!(sol_deposit_buy(&mut pool, 1), Err(MMMErrorCode::NumericOverflow));
    assert_eq!(pool.buyside_payment_amount, u64::MAX);
}

#[test]
fn payment_withdraw_beyond_holdings_fails_clean() {
    let mut pool = linear_pool(1000, 100, 0, 0, 100);
    assert_eq!(sol_withdraw_buy(&mut pool, 101), Err(MMMErrorCode::NumericOverflow));
    assert_eq!(pool.buyside_payment_amount, 100);
}

#[test]
fn asset_deposit_and_withdraw_update_both_records() {
    let mut pool = linear_pool(1000, 100, 0, 0, 0);
    let mut state = SellState { asset_amount: 0 };
    assert_eq!(deposit_sell(&mut pool, &mut state, 3), Ok(()));
    assert_eq!(pool.sellside_asset_amount, 3);
    assert_eq!(state.asset_amount, 3);
    assert_eq!(withdraw_sell(&mut pool, &mut state, 2), Ok(()));
    assert_eq!(pool.sellside_asset_amount, 1);
    assert_eq!(state.asset_amount, 1);
}

#[test]
fn asset_withdraw_beyond_holdings_fails_clean() {
    let mut pool = linear_pool(1000, 100, 0, 5, 0);
    let mut state = SellState { asset_amount: 2 };
    assert_eq!(withdraw_sell(&mut pool, &mut state, 3), Err(MMMErrorCode::NumericOverflow));
    assert_eq!(pool.sellside_asset_amount, 5);
    assert_eq!(state.asset_amount, 2);
}

#[test]
fn pool_with_payment_left_stays_open() {
    // both sides must be zero at once before the record is wiped
    let pool = linear_pool(1000, 100, 0, 0, 5);
    let outcome = try_close_pool(&pool, 890_880, 10_000);
    assert!(!outcome.closed);
    assert_eq!(outcome.record_lamports, 890_880);
    assert_eq!(outcome.owner_lamports, 10_000);
}

#[test]
fn pool_with_assets_left_stays_open() {
    let pool = linear_pool(1000, 100, 0, 1, 0);
    assert!(!try_close_pool(&pool, 890_880, 10_000).closed);
}

#[test]
fn drained_pool_closes_and_refunds_owner() {
    let pool = linear_pool(1000, 100, 0, 0, 0);
    let outcome = try_close_pool(&pool, 890_880, 10_000);
    assert!(outcome.closed);
    assert_eq!(outcome.record_lamports, 0);
    assert_eq!(outcome.owner_lamports, 900_880);
}

#[test]
fn emptied_inventory_record_closes() {
    let outcome = try_close_sell_state(&SellState { asset_amount: 0 }, 1_200, 100);
    assert!(outcome.closed);
    assert_eq!(outcome.owner_lamports, 1_300);
    assert!(!try_close_sell_state(&SellState { asset_amount: 1 }, 1_200, 100).closed);
}

#[test]
fn escrow_sweep_only_below_rent_floor() {
    assert_eq!(try_close_escrow(0, 890_880), 0);
    assert_eq!(try_close_escrow(890_880, 890_880), 890_880);
    assert_eq!(try_close_escrow(890_881, 890_880), 0);
}

#[test]
fn fulfill_sell_moves_value_and_spot() {
    // trader buys 3 units: total 3600, next spot 1300, no fees configured
    let mut pool = linear_pool(1000, 100, 0, 5, 0);
    let mut state = SellState { asset_amount: 5 };
    let outcome = sol_fulfill_sell(&mut pool, &mut state, 3, 42, &metadata(0), None, None, 0, 0).unwrap();
    assert_eq!(outcome.total_price, 3600);
    assert_eq!(outcome.lp_fee, 0);
    assert_eq!(outcome.royalty, 0);
    assert_eq!(outcome.seller_receives, 3600);
    assert_eq!(pool.spot_price, 1300);
    assert_eq!(pool.sellside_asset_amount, 2);
    assert_eq!(pool.buyside_payment_amount, 3600);
    assert_eq!(state.asset_amount, 2);
}

#[test]
fn fulfill_sell_discounts_lp_fee_and_royalty() {
    // total 3600; lp = 3600 * 100 / 10000 = 36; royalty = 3600 * 100/10000 * 10000/10000 = 36
    let mut pool = linear_pool(1000, 100, 100, 5, 0);
    let mut state = SellState { asset_amount: 5 };
    let outcome = sol_fulfill_sell(&mut pool, &mut state, 3, 42, &metadata(100), None, None, 5000, 10000)
        .unwrap();
    assert_eq!(outcome.total_price, 3600);
    assert_eq!(outcome.lp_fee, 36);
    assert_eq!(outcome.royalty, 36);
    assert_eq!(outcome.seller_receives, 3528);
    assert_eq!(outcome.total_price, outcome.seller_receives + outcome.lp_fee + outcome.royalty);
    assert_eq!(pool.buyside_payment_amount, 3528);
}

#[test]
fn fulfill_sell_beyond_inventory_fails_clean() {
    let mut pool = linear_pool(1000, 100, 0, 2, 0);
    let mut state = SellState { asset_amount: 2 };
    let r = sol_fulfill_sell(&mut pool, &mut state, 3, 42, &metadata(0), None, None, 0, 0);
    assert_eq!(r, Err(MMMErrorCode::NumericOverflow));
    assert_eq!(pool.spot_price, 1000);
    assert_eq!(pool.sellside_asset_amount, 2);
    assert_eq!(state.asset_amount, 2);
}

#[test]
fn fulfill_buy_moves_value_and_spot() {
    // trader sells 3 units: total 2700, next spot 700
    let mut pool = linear_pool(1000, 100, 0, 5, 10_000);
    let mut state = SellState { asset_amount: 5 };
    let outcome = sol_fulfill_buy(&mut pool, &mut state, 3, 42, &metadata(0), None, None, 10_000, 0).unwrap();
    assert_eq!(outcome.total_price, 2700);
    assert_eq!(outcome.seller_receives, 2700);
    assert_eq!(pool.spot_price, 700);
    assert_eq!(pool.sellside_asset_amount, 8);
    assert_eq!(pool.buyside_payment_amount, 7300);
    assert_eq!(state.asset_amount, 8);
}

#[test]
fn fulfill_buy_without_escrow_cover_fails_clean() {
    let mut pool = linear_pool(1000, 100, 0, 5, 2699);
    let mut state = SellState { asset_amount: 5 };
    let r = sol_fulfill_buy(&mut pool, &mut state, 3, 42, &metadata(0), None, None, 2699, 0);
    assert_eq!(r, Err(MMMErrorCode::NumericOverflow));
    assert_eq!(pool.buyside_payment_amount, 2699);
    assert_eq!(pool.spot_price, 1000);
}

#[test]
fn fulfill_gates_on_eligibility_first() {
    // mint 7 matches no allowlist entry: the trade never reaches pricing
    let mut pool = linear_pool(1000, 100, 0, 5, 0);
    let mut state = SellState { asset_amount: 5 };
    let r = sol_fulfill_sell(&mut pool, &mut state, 3, 7, &metadata(0), None, None, 0, 0);
    assert_eq!(r, Err(MMMErrorCode::InvalidAllowLists));
    assert_eq!(pool.spot_price, 1000);
    assert_eq!(pool.sellside_asset_amount, 5);
}
