//! The pool and inventory ledger.
//!
//! Every operation here is a single all-or-nothing transition over one
//! pool's records: validation and every arithmetic check happen before the
//! first write, so an error leaves the state exactly as it was.  The
//! custody layer moves the asset units and payment amounts these
//! transitions compute; the storage-reclamation layer acts on the close
//! decisions.

use vstd::prelude::*;

use crate::allowlist::{check_allowlists_for_mint, check_allowlists_for_mint_spec};
use crate::curve::{
    check_curve, curve_next, curve_ok, curve_total, get_sol_total_price_and_next_price,
};
use crate::errors::MMMErrorCode;
use crate::fees::{get_royalty_amount, get_sol_lp_fee, royalty_amount, sol_lp_fee_spec};
use crate::state::{Allowlist, AssetMetadata, Pool, SellState, CURVE_KIND_EXP};

verus! {

/// A pool as `base`, with both escrow balances replaced.
pub open spec fn pool_with_balances(base: Pool, sellside: u64, buyside: u64) -> Pool {
    Pool {
        spot_price: base.spot_price,
        curve_type: base.curve_type,
        curve_delta: base.curve_delta,
        lp_fee_bp: base.lp_fee_bp,
        sellside_asset_amount: sellside,
        buyside_payment_amount: buyside,
        allowlists: base.allowlists,
    }
}

/// A pool as `base`, with the spot price and both escrow balances
/// replaced.
pub open spec fn pool_after_trade(base: Pool, spot: u64, sellside: u64, buyside: u64) -> Pool {
    Pool {
        spot_price: spot,
        curve_type: base.curve_type,
        curve_delta: base.curve_delta,
        lp_fee_bp: base.lp_fee_bp,
        sellside_asset_amount: sellside,
        buyside_payment_amount: buyside,
        allowlists: base.allowlists,
    }
}

/// The configuration a pool is created from.
pub struct CreatePoolArgs {
    /// The opening spot price.
    pub spot_price: u64,
    /// One of the `CURVE_KIND_*` values.
    pub curve_type: u8,
    /// Step size for a linear curve; basis-point ratio for an exponential
    /// one.
    pub curve_delta: u64,
    /// Liquidity-provider fee in basis points.
    pub lp_fee_bp: u16,
    /// The pool's eligibility rules.
    pub allowlists: Vec<Allowlist>,
}

/// Creates a pool record from a validated configuration, with both escrow
/// balances at zero.  The curve, the LP fee rate and every allowlist entry
/// are validated here, once; every later operation preserves them.
pub fn create_pool(args: CreatePoolArgs) -> (r: Result<Pool, MMMErrorCode>)
    ensures
        r is Ok <==> ({
            &&& args.curve_type <= CURVE_KIND_EXP
            &&& args.curve_type == CURVE_KIND_EXP ==> args.curve_delta <= 10000
            &&& args.lp_fee_bp <= 10000
            &&& forall|i: int| 0 <= i < args.allowlists@.len() ==> args.allowlists@[i].valid_spec()
        }),
        r matches Ok(p) ==> p == pool_after_trade(
            Pool {
                spot_price: args.spot_price,
                curve_type: args.curve_type,
                curve_delta: args.curve_delta,
                lp_fee_bp: args.lp_fee_bp,
                sellside_asset_amount: 0,
                buyside_payment_amount: 0,
                allowlists: args.allowlists,
            },
            args.spot_price,
            0,
            0,
        ) && p.wf(),
        r matches Err(e) ==> e == (if args.curve_type > CURVE_KIND_EXP {
            MMMErrorCode::InvalidCurveType
        } else if args.curve_type == CURVE_KIND_EXP && args.curve_delta > 10000 {
            MMMErrorCode::InvalidCurveDelta
        } else if args.lp_fee_bp > 10000 {
            MMMErrorCode::InvalidBP
        } else {
            MMMErrorCode::InvalidAllowLists
        }),
{
    match check_curve(args.curve_type, args.curve_delta) {
        Ok(_) => {},
        Err(e) => {
            return Err(e);
        },
    }
    if args.lp_fee_bp > 10000 {
        return Err(MMMErrorCode::InvalidBP);
    }
    match crate::allowlist::check_allowlists(&args.allowlists) {
        Ok(_) => {},
        Err(e) => {
            return Err(e);
        },
    }
    Ok(
        Pool {
            spot_price: args.spot_price,
            curve_type: args.curve_type,
            curve_delta: args.curve_delta,
            lp_fee_bp: args.lp_fee_bp,
            sellside_asset_amount: 0,
            buyside_payment_amount: 0,
            allowlists: args.allowlists,
        },
    )
}

/// Replaces a pool's curve configuration, spot price and LP fee rate,
/// under the same validation as creation.  Balances and allowlists are
/// kept; an invalid configuration leaves the pool untouched.
pub fn update_pool(
    pool: &mut Pool,
    spot_price: u64,
    curve_type: u8,
    curve_delta: u64,
    lp_fee_bp: u16,
) -> (r: Result<(), MMMErrorCode>)
    requires
        old(pool).wf(),
    ensures
        r is Ok <==> ({
            &&& curve_type <= CURVE_KIND_EXP
            &&& curve_type == CURVE_KIND_EXP ==> curve_delta <= 10000
            &&& lp_fee_bp <= 10000
        }),
        r is Ok ==> *final(pool) == (Pool {
            spot_price,
            curve_type,
            curve_delta,
            lp_fee_bp,
            sellside_asset_amount: old(pool).sellside_asset_amount,
            buyside_payment_amount: old(pool).buyside_payment_amount,
            allowlists: old(pool).allowlists,
        }) && final(pool).wf(),
        r is Err ==> *final(pool) == *old(pool),
        r matches Err(e) ==> e == (if curve_type > CURVE_KIND_EXP {
            MMMErrorCode::InvalidCurveType
        } else if curve_type == CURVE_KIND_EXP && curve_delta > 10000 {
            MMMErrorCode::InvalidCurveDelta
        } else {
            MMMErrorCode::InvalidBP
        }),
{
    match check_curve(curve_type, curve_delta) {
        Ok(_) => {},
        Err(e) => {
            return Err(e);
        },
    }
    if lp_fee_bp > 10000 {
        return Err(MMMErrorCode::InvalidBP);
    }
    pool.spot_price = spot_price;
    pool.curve_type = curve_type;
    pool.curve_delta = curve_delta;
    pool.lp_fee_bp = lp_fee_bp;
    Ok(())
}

/// Credits a payment deposit to the pool's buy-side escrow.
pub fn sol_deposit_buy(pool: &mut Pool, payment_amount: u64) -> (r: Result<(), MMMErrorCode>)
    ensures
        r is Ok <==> old(pool).buyside_payment_amount + payment_amount <= u64::MAX,
        r is Ok ==> *final(pool) == pool_with_balances(
            *old(pool),
            old(pool).sellside_asset_amount,
            (old(pool).buyside_payment_amount + payment_amount) as u64,
        ),
        r is Err ==> *final(pool) == *old(pool),
        r matches Err(e) ==> e == MMMErrorCode::NumericOverflow,
{
    match pool.buyside_payment_amount.checked_add(payment_amount) {
        Some(v) => {
            pool.buyside_payment_amount = v;
            Ok(())
        },
        None => Err(MMMErrorCode::NumericOverflow),
    }
}

/// Debits a payment withdrawal from the pool's buy-side escrow, bounded by
/// the current holdings.
pub fn sol_withdraw_buy(pool: &mut Pool, payment_amount: u64) -> (r: Result<(), MMMErrorCode>)
    ensures
        r is Ok <==> payment_amount <= old(pool).buyside_payment_amount,
        r is Ok ==> *final(pool) == pool_with_balances(
            *old(pool),
            old(pool).sellside_asset_amount,
            (old(pool).buyside_payment_amount - payment_amount) as u64,
        ),
        r is Err ==> *final(pool) == *old(pool),
        r matches Err(e) ==> e == MMMErrorCode::NumericOverflow,
{
    match pool.buyside_payment_amount.checked_sub(payment_amount) {
        Some(v) => {
            pool.buyside_payment_amount = v;
            Ok(())
        },
        None => Err(MMMErrorCode::NumericOverflow),
    }
}

/// Credits an asset deposit to the pool's sell side and to the asset's
/// inventory record, atomically.
pub fn deposit_sell(pool: &mut Pool, sell_state: &mut SellState, asset_amount: u64) -> (r: Result<
    (),
    MMMErrorCode,
>)
    ensures
        r is Ok <==> ({
            &&& old(pool).sellside_asset_amount + asset_amount <= u64::MAX
            &&& old(sell_state).asset_amount + asset_amount <= u64::MAX
        }),
        r is Ok ==> *final(pool) == pool_with_balances(
            *old(pool),
            (old(pool).sellside_asset_amount + asset_amount) as u64,
            old(pool).buyside_payment_amount,
        ) && final(sell_state).asset_amount == old(sell_state).asset_amount + asset_amount,
        r is Err ==> *final(pool) == *old(pool) && *final(sell_state) == *old(sell_state),
        r matches Err(e) ==> e == MMMErrorCode::NumericOverflow,
{
    let new_sellside = match pool.sellside_asset_amount.checked_add(asset_amount) {
        Some(v) => v,
        None => {
            return Err(MMMErrorCode::NumericOverflow);
        },
    };
    let new_state = match sell_state.asset_amount.checked_add(asset_amount) {
        Some(v) => v,
        None => {
            return Err(MMMErrorCode::NumericOverflow);
        },
    };
    pool.sellside_asset_amount = new_sellside;
    sell_state.asset_amount = new_state;
    Ok(())
}

/// Debits an asset withdrawal from the pool's sell side and from the
/// asset's inventory record, atomically, bounded by the current holdings.
pub fn withdraw_sell(pool: &mut Pool, sell_state: &mut SellState, asset_amount: u64) -> (r: Result<
    (),
    MMMErrorCode,
>)
    ensures
        r is Ok <==> ({
            &&& asset_amount <= old(pool).sellside_asset_amount
            &&& asset_amount <= old(sell_state).asset_amount
        }),
        r is Ok ==> *final(pool) == pool_with_balances(
            *old(pool),
            (old(pool).sellside_asset_amount - asset_amount) as u64,
            old(pool).buyside_payment_amount,
        ) && final(sell_state).asset_amount == old(sell_state).asset_amount - asset_amount,
        r is Err ==> *final(pool) == *old(pool) && *final(sell_state) == *old(sell_state),
        r matches Err(e) ==> e == MMMErrorCode::NumericOverflow,
{
    let new_sellside = match pool.sellside_asset_amount.checked_sub(asset_amount) {
        Some(v) => v,
        None => {
            return Err(MMMErrorCode::NumericOverflow);
        },
    };
    let new_state = match sell_state.asset_amount.checked_sub(asset_amount) {
        Some(v) => v,
        None => {
            return Err(MMMErrorCode::NumericOverflow);
        },
    };
    pool.sellside_asset_amount = new_sellside;
    sell_state.asset_amount = new_state;
    Ok(())
}

/// A close decision: whether the record is to be wiped, and the lamport
/// balances of the record and its owner after the decision.
#[derive(Clone, Copy, Debug, PartialEq, Eq, Structural)]
pub struct CloseOutcome {
    /// Whether the record's storage is reclaimed.
    pub closed: bool,
    /// The record's lamport balance after the decision.
    pub record_lamports: u64,
    /// The owner's lamport balance after the decision.
    pub owner_lamports: u64,
}

/// Law and operation in one: a pool's record is wiped exactly when both of
/// its side balances are zero at once, and then its whole lamport balance
/// is credited to the owner.  A pool holding anything on either side stays
/// intact.
pub fn try_close_pool(pool: &Pool, pool_lamports: u64, owner_lamports: u64) -> (r: CloseOutcome)
    requires
        pool_lamports + owner_lamports <= u64::MAX,
    ensures
        r.closed <==> (pool.sellside_asset_amount == 0 && pool.buyside_payment_amount == 0),
        r.closed ==> r.record_lamports == 0 && r.owner_lamports == owner_lamports + pool_lamports,
        !r.closed ==> r.record_lamports == pool_lamports && r.owner_lamports == owner_lamports,
{
    if pool.sellside_asset_amount != 0 {
        return CloseOutcome { closed: false, record_lamports: pool_lamports, owner_lamports };
    }
    if pool.buyside_payment_amount != 0 {
        return CloseOutcome { closed: false, record_lamports: pool_lamports, owner_lamports };
    }
    CloseOutcome { closed: true, record_lamports: 0, owner_lamports: owner_lamports
        + pool_lamports }
}

/// An inventory record is wiped exactly when its asset amount returns to
/// zero, and then its whole lamport balance is credited to the owner.
pub fn try_close_sell_state(sell_state: &SellState, state_lamports: u64, owner_lamports: u64) -> (r:
    CloseOutcome)
    requires
        state_lamports + owner_lamports <= u64::MAX,
    ensures
        r.closed <==> sell_state.asset_amount == 0,
        r.closed ==> r.record_lamports == 0 && r.owner_lamports == owner_lamports
            + state_lamports,
        !r.closed ==> r.record_lamports == state_lamports && r.owner_lamports == owner_lamports,
{
    if sell_state.asset_amount != 0 {
        return CloseOutcome { closed: false, record_lamports: state_lamports, owner_lamports };
    }
    CloseOutcome { closed: true, record_lamports: 0, owner_lamports: owner_lamports
        + state_lamports }
}

/// The escrow sweep decision: a buy-side escrow holding no more than the
/// minimum rent-exempt balance (and not already empty) is swept whole into
/// the pool; anything else is left alone.  Returns the amount to move.
pub fn try_close_escrow(escrow_lamports: u64, min_rent: u64) -> (r: u64)
    ensures
        r == (if escrow_lamports == 0 || escrow_lamports > min_rent {
            0u64
        } else {
            escrow_lamports
        }),
{
    if escrow_lamports == 0 || escrow_lamports > min_rent {
        0
    } else {
        escrow_lamports
    }
}

/// What one fulfillment computed and committed: the quoted total, the fee
/// decomposition, and what the counter-party nets once the fees are
/// disbursed.  The total always equals the net plus both fees: no value
/// appears or vanishes.
#[derive(Clone, Copy, Debug, PartialEq, Eq, Structural)]
pub struct FulfillOutcome {
    /// The quoted total price of the trade.
    pub total_price: u64,
    /// The liquidity-provider fee disbursed to the pool owner.
    pub lp_fee: u64,
    /// The royalty disbursed to the asset's creators.
    pub royalty: u64,
    /// What is left of the total once both fees are taken off.
    pub seller_receives: u64,
}

/// Exactly when a sell-side fulfillment (a trader buying `n` units from
/// the pool) succeeds, the eligibility gate aside.
pub open spec fn fulfill_sell_ok(
    pool: Pool,
    ss: SellState,
    n: u64,
    buyside_sol_escrow_balance: u64,
    meta: AssetMetadata,
    buyside_creator_royalty_bp: u16,
) -> bool {
    let total = curve_total(pool, n, false);
    let lp = sol_lp_fee_spec(pool, buyside_sol_escrow_balance, total as u64);
    let roy = royalty_amount(total as u64, meta.seller_fee_basis_points,
        buyside_creator_royalty_bp);
    &&& curve_ok(pool, n, false)
    &&& lp <= u64::MAX
    &&& roy <= u64::MAX
    &&& lp + roy <= total
    &&& n <= pool.sellside_asset_amount
    &&& n <= ss.asset_amount
    &&& pool.buyside_payment_amount + (total - lp - roy) <= u64::MAX
}

/// Fulfills the pool's sell side: the trader buys `asset_amount` units.
/// The allowlist matcher gates the asset first; then the quote walks up
/// the curve, the pool's asset side and the inventory record drop by the
/// traded quantity, the spot price moves to the next quote, and the
/// buy-side escrow gains the total minus the LP fee and the royalty, which
/// the custody layer disburses as returned.  Any failed check aborts with
/// no mutation.
pub fn sol_fulfill_sell(
    pool: &mut Pool,
    sell_state: &mut SellState,
    asset_amount: u64,
    mint: u64,
    metadata: &AssetMetadata,
    master_edition: Option<&Vec<u8>>,
    allowlist_aux: Option<&Vec<u8>>,
    buyside_sol_escrow_balance: u64,
    buyside_creator_royalty_bp: u16,
) -> (r: Result<FulfillOutcome, MMMErrorCode>)
    requires
        old(pool).wf(),
    ensures
        ({
            let ed: Option<Seq<u8>> = match master_edition {
                Option::Some(d) => Option::Some(d@),
                Option::None => Option::None,
            };
            let aux: Option<Seq<u8>> = match allowlist_aux {
                Option::Some(p) => Option::Some(p@),
                Option::None => Option::None,
            };
            let elig = check_allowlists_for_mint_spec(old(pool).allowlists@, mint, *metadata, ed,
                aux);
            &&& (r is Ok <==> (elig is Ok && fulfill_sell_ok(
                *old(pool),
                *old(sell_state),
                asset_amount,
                buyside_sol_escrow_balance,
                *metadata,
                buyside_creator_royalty_bp,
            )))
            &&& (r matches Err(e) ==> e == (match elig {
                Result::Err(e2) => e2,
                Result::Ok(_) => MMMErrorCode::NumericOverflow,
            }))
        }),
        r matches Ok(o) ==> ({
            let total = curve_total(*old(pool), asset_amount, false);
            let lp = sol_lp_fee_spec(*old(pool), buyside_sol_escrow_balance, total as u64);
            let roy = royalty_amount(total as u64, metadata.seller_fee_basis_points,
                buyside_creator_royalty_bp);
            &&& o.total_price == total
            &&& o.lp_fee == lp
            &&& o.royalty == roy
            &&& o.seller_receives == total - lp - roy
            &&& o.total_price == o.seller_receives + o.lp_fee + o.royalty
            &&& *final(pool) == pool_after_trade(
                *old(pool),
                curve_next(*old(pool), asset_amount, false) as u64,
                (old(pool).sellside_asset_amount - asset_amount) as u64,
                (old(pool).buyside_payment_amount + (total - lp - roy)) as u64,
            )
            &&& final(sell_state).asset_amount == old(sell_state).asset_amount - asset_amount
            &&& final(pool).wf()
        }),
        r is Err ==> *final(pool) == *old(pool) && *final(sell_state) == *old(sell_state),
{
    match check_allowlists_for_mint(&pool.allowlists, mint, metadata, master_edition,
        allowlist_aux) {
        Ok(_) => {},
        Err(e) => {
            return Err(e);
        },
    }
    let (total, next) = match get_sol_total_price_and_next_price(pool, asset_amount, false) {
        Ok(v) => v,
        Err(e) => {
            return Err(e);
        },
    };
    let lp_fee = match get_sol_lp_fee(pool, buyside_sol_escrow_balance, total) {
        Ok(v) => v,
        Err(e) => {
            return Err(e);
        },
    };
    let royalty = match get_royalty_amount(
        total,
        metadata.seller_fee_basis_points,
        buyside_creator_royalty_bp,
    ) {
        Ok(v) => v,
        Err(e) => {
            return Err(e);
        },
    };
    let fees_total = match lp_fee.checked_add(royalty) {
        Some(v) => v,
        None => {
            return Err(MMMErrorCode::NumericOverflow);
        },
    };
    let seller_receives = match total.checked_sub(fees_total) {
        Some(v) => v,
        None => {
            return Err(MMMErrorCode::NumericOverflow);
        },
    };
    let new_sellside = match pool.sellside_asset_amount.checked_sub(asset_amount) {
        Some(v) => v,
        None => {
            return Err(MMMErrorCode::NumericOverflow);
        },
    };
    let new_state = match sell_state.asset_amount.checked_sub(asset_amount) {
        Some(v) => v,
        None => {
            return Err(MMMErrorCode::NumericOverflow);
        },
    };
    let new_buyside = match pool.buyside_payment_amount.checked_add(seller_receives) {
        Some(v) => v,
        None => {
            return Err(MMMErrorCode::NumericOverflow);
        },
    };
    pool.spot_price = next;
    pool.sellside_asset_amount = new_sellside;
    pool.buyside_payment_amount = new_buyside;
    sell_state.asset_amount = new_state;
    Ok(FulfillOutcome { total_price: total, lp_fee, royalty, seller_receives })
}

/// Exactly when a buy-side fulfillment (a trader selling `n` units to the
/// pool) succeeds, the eligibility gate aside.
pub open spec fn fulfill_buy_ok(
    pool: Pool,
    ss: SellState,
    n: u64,
    buyside_sol_escrow_balance: u64,
    meta: AssetMetadata,
    buyside_creator_royalty_bp: u16,
) -> bool {
    let total = curve_total(pool, n, true);
    let lp = sol_lp_fee_spec(pool, buyside_sol_escrow_balance, total as u64);
    let roy = royalty_amount(total as u64, meta.seller_fee_basis_points,
        buyside_creator_royalty_bp);
    &&& curve_ok(pool, n, true)
    &&& lp <= u64::MAX
    &&& roy <= u64::MAX
    &&& lp + roy <= total
    &&& total <= pool.buyside_payment_amount
    &&& pool.sellside_asset_amount + n <= u64::MAX
    &&& ss.asset_amount + n <= u64::MAX
}

/// Fulfills the pool's buy side: the trader sells `asset_amount` units to
/// the pool.  The allowlist matcher gates the asset first; then the quote
/// walks down the curve, the buy-side escrow pays out the whole total (the
/// seller nets it minus the LP fee and the royalty, disbursed by the
/// custody layer as returned), the pool's asset side and the inventory
/// record grow by the traded quantity, and the spot price moves to the
/// next quote.  Any failed check aborts with no mutation.
pub fn sol_fulfill_buy(
    pool: &mut Pool,
    sell_state: &mut SellState,
    asset_amount: u64,
    mint: u64,
    metadata: &AssetMetadata,
    master_edition: Option<&Vec<u8>>,
    allowlist_aux: Option<&Vec<u8>>,
    buyside_sol_escrow_balance: u64,
    buyside_creator_royalty_bp: u16,
) -> (r: Result<FulfillOutcome, MMMErrorCode>)
    requires
        old(pool).wf(),
    ensures
        ({
            let ed: Option<Seq<u8>> = match master_edition {
                Option::Some(d) => Option::Some(d@),
                Option::None => Option::None,
            };
            let aux: Option<Seq<u8>> = match allowlist_aux {
                Option::Some(p) => Option::Some(p@),
                Option::None => Option::None,
            };
            let elig = check_allowlists_for_mint_spec(old(pool).allowlists@, mint, *metadata, ed,
                aux);
            &&& (r is Ok <==> (elig is Ok && fulfill_buy_ok(
                *old(pool),
                *old(sell_state),
                asset_amount,
                buyside_sol_escrow_balance,
                *metadata,
                buyside_creator_royalty_bp,
            )))
            &&& (r matches Err(e) ==> e == (match elig {
                Result::Err(e2) => e2,
                Result::Ok(_) => MMMErrorCode::NumericOverflow,
            }))
        }),
        r matches Ok(o) ==> ({
            let total = curve_total(*old(pool), asset_amount, true);
            let lp = sol_lp_fee_spec(*old(pool), buyside_sol_escrow_balance, total as u64);
            let roy = royalty_amount(total as u64, metadata.seller_fee_basis_points,
                buyside_creator_royalty_bp);
            &&& o.total_price == total
            &&& o.lp_fee == lp
            &&& o.royalty == roy
            &&& o.seller_receives == total - lp - roy
            &&& o.total_price == o.seller_receives + o.lp_fee + o.royalty
            &&& *final(pool) == pool_after_trade(
                *old(pool),
                curve_next(*old(pool), asset_amount, true) as u64,
                (old(pool).sellside_asset_amount + asset_amount) as u64,
                (old(pool).buyside_payment_amount - total) as u64,
            )
            &&& final(sell_state).asset_amount == old(sell_state).asset_amount + asset_amount
            &&& final(pool).wf()
        }),
        r is Err ==> *final(pool) == *old(pool) && *final(sell_state) == *old(sell_state),
{
    match check_allowlists_for_mint(&pool.allowlists, mint, metadata, master_edition,
        allowlist_aux) {
        Ok(_) => {},
        Err(e) => {
            return Err(e);
        },
    }
    let (total, next) = match get_sol_total_price_and_next_price(pool, asset_amount, true) {
        Ok(v) => v,
        Err(e) => {
            return Err(e);
        },
    };
    let lp_fee = match get_sol_lp_fee(pool, buyside_sol_escrow_balance, total) {
        Ok(v) => v,
        Err(e) => {
            return Err(e);
        },
    };
    let royalty = match get_royalty_amount(
        total,
        metadata.seller_fee_basis_points,
        buyside_creator_royalty_bp,
    ) {
        Ok(v) => v,
        Err(e) => {
            return Err(e);
        },
    };
    let fees_total = match lp_fee.checked_add(royalty) {
        Some(v) => v,
        None => {
            return Err(MMMErrorCode::NumericOverflow);
        },
    };
    let seller_receives = match total.checked_sub(fees_total) {
        Some(v) => v,
        None => {
            return Err(MMMErrorCode::NumericOverflow);
        },
    };
    let new_buyside = match pool.buyside_payment_amount.checked_sub(total) {
        Some(v) => v,
        None => {
            return Err(MMMErrorCode::NumericOverflow);
        },
    };
    let new_sellside = match pool.sellside_asset_amount.checked_add(asset_amount) {
        Some(v) => v,
        None => {
            return Err(MMMErrorCode::NumericOverflow);
        },
    };
    let new_state = match sell_state.asset_amount.checked_add(asset_amount) {
        Some(v) => v,
        None => {
            return Err(MMMErrorCode::NumericOverflow);
        },
    };
    pool.spot_price = next;
    pool.sellside_asset_amount = new_sellside;
    pool.buyside_payment_amount = new_buyside;
    sell_state.asset_amount = new_state;
    Ok(FulfillOutcome { total_price: total, lp_fee, royalty, seller_receives })
}

} // verus!
