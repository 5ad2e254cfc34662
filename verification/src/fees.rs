//! The fee-distribution engine.
//!
//! From a trade's total price the engine computes the liquidity-provider
//! fee, the creator royalty with its split across beneficiaries, the
//! royalty-adjusted proceeds of a sale, and the validity of a maker/taker
//! referral fee configuration.  Every computation is exact fixed-point
//! arithmetic: wide intermediates, checked narrowing, rounding down.

use vstd::prelude::*;
use vstd::arithmetic::div_mod::{
    lemma_div_by_multiple, lemma_div_is_ordered_by_denominator, lemma_div_pos_is_pos,
};
use vstd::arithmetic::mul::{lemma_mul_inequality, lemma_mul_is_commutative, lemma_mul_nonnegative};

use crate::constants::{MAX_METADATA_CREATOR_ROYALTY_BP, MAX_REFERRAL_FEE_BP};
use crate::errors::MMMErrorCode;
use crate::state::{AssetMetadata, Creator, CreatorAccount, Pool};

verus! {

/// The effective LP fee rate: the configured rate while the pool holds at
/// least one asset unit and its buy-side escrow covers the spot price, and
/// zero otherwise.  A pool that cannot fulfill in both directions charges
/// no LP fee.
pub open spec fn lp_fee_bp_spec(pool: Pool, buyside_sol_escrow_balance: u64) -> u16 {
    if pool.sellside_asset_amount < 1 {
        0
    } else if buyside_sol_escrow_balance < pool.spot_price {
        0
    } else {
        pool.lp_fee_bp
    }
}

/// The LP fee in payment units: the total price reduced to the effective
/// rate, rounding down.
pub open spec fn sol_lp_fee_spec(pool: Pool, buyside_sol_escrow_balance: u64, total_sol_price: u64) -> int {
    total_sol_price * lp_fee_bp_spec(pool, buyside_sol_escrow_balance) / 10000
}

/// Signed division rounding towards zero, as the machine divides.
pub open spec fn div_towards_zero(x: int, d: int) -> int {
    if x >= 0 {
        x / d
    } else {
        -((-x) / d)
    }
}

/// A referral fee in payment units: the total price times a signed
/// basis-point rate, rounding towards zero.
pub open spec fn sol_fee_spec(total_sol_price: u64, fee_bp: i16) -> int {
    div_towards_zero(total_sol_price * fee_bp, 10000)
}

/// The royalty in payment units: two sequential basis-point reductions of
/// the total price, each rounding down.
pub open spec fn royalty_amount(
    total_price: u64,
    metadata_royalty_bp: u16,
    buyside_creator_royalty_bp: u16,
) -> int {
    total_price * metadata_royalty_bp / 10000 * buyside_creator_royalty_bp / 10000
}

/// What a seller nets from a buy-side fulfillment once the LP fee and both
/// royalty reductions are taken off the quoted price.
pub open spec fn buyside_seller_receives_spec(
    total_sol_price: u64,
    lp_fee_bp: u16,
    royalty_bp: u16,
    buyside_creator_royalty_bp: u16,
) -> int {
    total_sol_price * 100000000 / (lp_fee_bp * 10000 + royalty_bp * buyside_creator_royalty_bp
        + 100000000)
}

/// Returns the effective LP fee rate for the pool's current liquidity
/// state.
pub fn get_lp_fee_bp(pool: &Pool, buyside_sol_escrow_balance: u64) -> (r: u16)
    ensures
        r == lp_fee_bp_spec(*pool, buyside_sol_escrow_balance),
{
    if pool.sellside_asset_amount < 1 {
        return 0;
    }
    if buyside_sol_escrow_balance < pool.spot_price {
        return 0;
    }
    pool.lp_fee_bp
}

/// Computes the LP fee on a trade.  Succeeds exactly when the fee fits the
/// balance width.
pub fn get_sol_lp_fee(pool: &Pool, buyside_sol_escrow_balance: u64, total_sol_price: u64) -> (r:
    Result<u64, MMMErrorCode>)
    ensures
        r is Ok <==> sol_lp_fee_spec(*pool, buyside_sol_escrow_balance, total_sol_price)
            <= u64::MAX,
        r matches Ok(v) ==> v == sol_lp_fee_spec(*pool, buyside_sol_escrow_balance,
            total_sol_price),
        r matches Err(e) ==> e == MMMErrorCode::NumericOverflow,
{
    let lp_fee_bp = get_lp_fee_bp(pool, buyside_sol_escrow_balance);
    proof {
        lemma_mul_inequality(total_sol_price as int, u64::MAX as int, lp_fee_bp as int);
        lemma_mul_nonnegative(total_sol_price as int, lp_fee_bp as int);
    }
    let scaled: u128 = total_sol_price as u128 * lp_fee_bp as u128;
    let fee: u128 = scaled / 10000;
    match u64::try_from(fee) {
        Ok(v) => Ok(v),
        Err(_) => Err(MMMErrorCode::NumericOverflow),
    }
}

/// Computes a signed referral fee on a trade, rounding towards zero.
/// Succeeds exactly when the fee fits a signed 64-bit value.
pub fn get_sol_fee(total_sol_price: u64, fee_bp: i16) -> (r: Result<i64, MMMErrorCode>)
    ensures
        r is Ok <==> i64::MIN <= sol_fee_spec(total_sol_price, fee_bp) <= i64::MAX,
        r matches Ok(v) ==> v == sol_fee_spec(total_sol_price, fee_bp),
        r matches Err(e) ==> e == MMMErrorCode::NumericOverflow,
{
    proof {
        if fee_bp >= 0 {
            lemma_mul_inequality(fee_bp as int, i16::MAX as int, total_sol_price as int);
            lemma_mul_is_commutative(fee_bp as int, total_sol_price as int);
            lemma_mul_is_commutative(i16::MAX as int, total_sol_price as int);
            lemma_mul_nonnegative(total_sol_price as int, fee_bp as int);
        } else {
            lemma_mul_inequality(i16::MIN as int, fee_bp as int, total_sol_price as int);
            lemma_mul_is_commutative(i16::MIN as int, total_sol_price as int);
            lemma_mul_is_commutative(fee_bp as int, total_sol_price as int);
            lemma_mul_inequality(fee_bp as int, 0, total_sol_price as int);
        }
    }
    let scaled: i128 = total_sol_price as i128 * fee_bp as i128;
    let fee: i128 = match scaled.checked_div(10000) {
        Some(v) => v,
        None => {
            proof {
                if scaled >= 0 {
                    lemma_div_pos_is_pos(scaled as int, 10000);
                    lemma_div_is_ordered_by_denominator(scaled as int, 1, 10000);
                } else {
                    lemma_div_pos_is_pos(-(scaled as int), 10000);
                    lemma_div_is_ordered_by_denominator(-(scaled as int), 1, 10000);
                }
                assert(false);
            }
            return Err(MMMErrorCode::NumericOverflow);
        },
    };
    match i64::try_from(fee) {
        Ok(v) => Ok(v),
        Err(_) => Err(MMMErrorCode::NumericOverflow),
    }
}

/// Computes what the seller receives from a buy-side fulfillment of the
/// given quoted price.  This always succeeds: the combined fee denominator
/// is at least the base, so the result never exceeds the quoted price.
pub fn get_buyside_seller_receives(
    total_sol_price: u64,
    lp_fee_bp: u16,
    royalty_bp: u16,
    buyside_creator_royalty_bp: u16,
) -> (r: Result<u64, MMMErrorCode>)
    ensures
        r matches Ok(v) && v == buyside_seller_receives_spec(total_sol_price, lp_fee_bp,
            royalty_bp, buyside_creator_royalty_bp),
{
    proof {
        lemma_mul_inequality(royalty_bp as int, u16::MAX as int, buyside_creator_royalty_bp as int);
        lemma_mul_nonnegative(royalty_bp as int, buyside_creator_royalty_bp as int);
    }
    let royalty_part: u128 = royalty_bp as u128 * buyside_creator_royalty_bp as u128;
    let all_fees: u128 = lp_fee_bp as u128 * 10000 + royalty_part + 100000000;
    let scaled: u128 = total_sol_price as u128 * 100000000;
    let out: u128 = scaled / all_fees;
    proof {
        lemma_div_is_ordered_by_denominator(scaled as int, 100000000, all_fees as int);
        lemma_div_by_multiple(total_sol_price as int, 100000000);
        lemma_mul_is_commutative(total_sol_price as int, 100000000);
    }
    match u64::try_from(out) {
        Ok(v) => Ok(v),
        Err(_) => {
            proof {
                assert(false);
            }
            Err(MMMErrorCode::NumericOverflow)
        },
    }
}

/// The royalty rate an asset declares for a trade: its metadata's
/// seller-fee basis points, whatever the price.
pub fn get_metadata_royalty_bp(_total_price: u64, parsed_metadata: &AssetMetadata) -> (r: u16)
    ensures
        r == parsed_metadata.seller_fee_basis_points,
{
    parsed_metadata.seller_fee_basis_points
}

/// Validates a maker/taker referral fee configuration: the taker rate and
/// the combined rate must lie in `[0, MAX_REFERRAL_FEE_BP]` and the maker
/// rate (a rebate when negative) in `[-MAX_REFERRAL_FEE_BP,
/// MAX_REFERRAL_FEE_BP]`, so the combined effective fee is never negative
/// and never exceeds the ceiling.
pub fn assert_valid_fees_bp(maker_fee_bp: i16, taker_fee_bp: i16) -> (r: Result<(), MMMErrorCode>)
    ensures
        r is Ok <==> {
            &&& 0 <= taker_fee_bp <= MAX_REFERRAL_FEE_BP
            &&& -MAX_REFERRAL_FEE_BP <= maker_fee_bp <= MAX_REFERRAL_FEE_BP
            &&& 0 <= maker_fee_bp + taker_fee_bp <= MAX_REFERRAL_FEE_BP
        },
        r matches Err(e) ==> e == MMMErrorCode::InvalidMakerOrTakerFeeBP,
{
    let bound = MAX_REFERRAL_FEE_BP;
    if !(0 <= taker_fee_bp && taker_fee_bp <= bound) {
        return Err(MMMErrorCode::InvalidMakerOrTakerFeeBP);
    }
    if !(-bound <= maker_fee_bp && maker_fee_bp <= bound) {
        return Err(MMMErrorCode::InvalidMakerOrTakerFeeBP);
    }
    let sum = maker_fee_bp + taker_fee_bp;
    if !(0 <= sum && sum <= bound) {
        return Err(MMMErrorCode::InvalidMakerOrTakerFeeBP);
    }
    Ok(())
}

/// The sum of a sequence of payment amounts.
pub open spec fn seq_sum(s: Seq<u64>) -> int
    decreases s.len(),
{
    if s.len() == 0 {
        0
    } else {
        s[0] + seq_sum(s.drop_first())
    }
}

/// The royalty payout walk from creator `i` on, with `computed` the sum of
/// the shares computed so far (moved or not) and `paid` the sum actually
/// moved.  For every creator but the last the fee is the royalty reduced
/// to the creator's percentage share, rounding down; the last creator's
/// fee is the exact remainder of the royalty over the computed prior
/// shares, so rounding leaks nothing.  A fee is moved only when it is
/// nonzero and would leave the beneficiary above the minimum viable
/// balance; a fee that is not moved still counts as disbursed: the slice
/// is forgone, neither refunded nor folded into a later beneficiary.
pub open spec fn creator_payout_from(
    royalty: u64,
    creators: Seq<Creator>,
    accounts: Seq<CreatorAccount>,
    min_rent: u64,
    i: int,
    computed: u64,
    paid: u64,
) -> Result<(Seq<u64>, u64), MMMErrorCode>
    decreases creators.len() - i,
{
    if i < 0 || i >= creators.len() {
        Ok((Seq::empty(), paid))
    } else {
        let fee_val: int = if i == creators.len() - 1 {
            royalty - computed
        } else {
            royalty * creators[i].share / 100
        };
        if fee_val < 0 || fee_val > u64::MAX {
            Err(MMMErrorCode::NumericOverflow)
        } else if i >= accounts.len() || creators[i].address != accounts[i].address {
            Err(MMMErrorCode::InvalidCreatorAddress)
        } else if fee_val > 0 && accounts[i].lamports + fee_val > u64::MAX {
            Err(MMMErrorCode::NumericOverflow)
        } else if computed + fee_val > u64::MAX {
            Err(MMMErrorCode::NumericOverflow)
        } else {
            let moved = fee_val > 0 && accounts[i].lamports + fee_val > min_rent;
            if moved && paid + fee_val > u64::MAX {
                Err(MMMErrorCode::NumericOverflow)
            } else {
                let amt: u64 = if moved {
                    fee_val as u64
                } else {
                    0
                };
                match creator_payout_from(
                    royalty,
                    creators,
                    accounts,
                    min_rent,
                    i + 1,
                    (computed + fee_val) as u64,
                    (paid + amt) as u64,
                ) {
                    Ok(pair) => Ok((seq![amt] + pair.0, pair.1)),
                    Err(e) => Err(e),
                }
            }
        }
    }
}

/// The full royalty payout: the two-step royalty reduction, the zero and
/// creator-less early outs, the payer balance check, the royalty-rate
/// ceiling, then the per-creator walk.
pub open spec fn pay_creator_fees_spec(
    buyside_creator_royalty_bp: u16,
    total_price: u64,
    meta: AssetMetadata,
    accounts: Seq<CreatorAccount>,
    payer_lamports: u64,
    metadata_royalty_bp: u16,
    min_rent: u64,
) -> Result<(Seq<u64>, u64), MMMErrorCode> {
    let roy = royalty_amount(total_price, metadata_royalty_bp, buyside_creator_royalty_bp);
    if roy > u64::MAX {
        Err(MMMErrorCode::NumericOverflow)
    } else if roy == 0 {
        Ok((Seq::empty(), 0))
    } else {
        match meta.creators {
            Option::None => Ok((Seq::empty(), 0)),
            Option::Some(creators) => {
                if payer_lamports < roy {
                    Err(MMMErrorCode::NotEnoughBalance)
                } else if meta.seller_fee_basis_points > MAX_METADATA_CREATOR_ROYALTY_BP {
                    Err(MMMErrorCode::InvalidMetadataCreatorRoyalty)
                } else {
                    creator_payout_from(roy as u64, creators@, accounts, min_rent, 0, 0, 0)
                }
            },
        }
    }
}

/// Computes the royalty on a trade: the total price reduced first by the
/// metadata's royalty rate, then by the buy side's creator-royalty rate,
/// each rounding down.  Succeeds exactly when the result fits the balance
/// width.
pub fn get_royalty_amount(
    total_price: u64,
    metadata_royalty_bp: u16,
    buyside_creator_royalty_bp: u16,
) -> (r: Result<u64, MMMErrorCode>)
    ensures
        r is Ok <==> royalty_amount(total_price, metadata_royalty_bp, buyside_creator_royalty_bp)
            <= u64::MAX,
        r matches Ok(v) ==> v == royalty_amount(total_price, metadata_royalty_bp,
            buyside_creator_royalty_bp),
        r matches Err(e) ==> e == MMMErrorCode::NumericOverflow,
{
    proof {
        lemma_mul_inequality(total_price as int, u64::MAX as int, metadata_royalty_bp as int);
        lemma_mul_nonnegative(total_price as int, metadata_royalty_bp as int);
    }
    let t1: u128 = total_price as u128 * metadata_royalty_bp as u128;
    let t2: u128 = t1 / 10000;
    proof {
        lemma_div_pos_is_pos(t1 as int, 10000);
        lemma_div_is_ordered_by_denominator(t1 as int, 1, 10000);
        lemma_mul_inequality(t2 as int, t1 as int, buyside_creator_royalty_bp as int);
        lemma_mul_inequality(t1 as int, u64::MAX as int * u16::MAX as int,
            buyside_creator_royalty_bp as int);
        lemma_mul_nonnegative(t2 as int, buyside_creator_royalty_bp as int);
    }
    let t3: u128 = t2 * buyside_creator_royalty_bp as u128;
    let t4: u128 = t3 / 10000;
    match u64::try_from(t4) {
        Ok(v) => Ok(v),
        Err(_) => Err(MMMErrorCode::NumericOverflow),
    }
}

/// Computes the royalty on a trade and its split across the asset's
/// creator beneficiaries, in declared order.  Returns the amount to move
/// to each beneficiary (zero where the transfer is skipped) and the total
/// moved; the custody layer performs the transfers exactly as returned.
#[verifier::rlimit(80)]
pub fn pay_creator_fees_in_sol(
    buyside_creator_royalty_bp: u16,
    total_price: u64,
    parsed_metadata: &AssetMetadata,
    creator_accounts: &Vec<CreatorAccount>,
    payer_lamports: u64,
    metadata_royalty_bp: u16,
    min_rent: u64,
) -> (r: Result<(Vec<u64>, u64), MMMErrorCode>)
    ensures
        ({
            let s = pay_creator_fees_spec(
                buyside_creator_royalty_bp,
                total_price,
                *parsed_metadata,
                creator_accounts@,
                payer_lamports,
                metadata_royalty_bp,
                min_rent,
            );
            match r {
                Ok(v) => s matches Ok(sv) && v.0@ == sv.0 && v.1 == sv.1,
                Err(e) => s == Err::<(Seq<u64>, u64), MMMErrorCode>(e),
            }
        }),
{
    let royalty: u64 = match get_royalty_amount(
        total_price,
        metadata_royalty_bp,
        buyside_creator_royalty_bp,
    ) {
        Ok(v) => v,
        Err(e) => {
            return Err(e);
        },
    };
    if royalty == 0 {
        return Ok((Vec::new(), 0));
    }
    let creators: &Vec<Creator> = match &parsed_metadata.creators {
        Some(c) => c,
        None => {
            return Ok((Vec::new(), 0));
        },
    };
    if payer_lamports < royalty {
        return Err(MMMErrorCode::NotEnoughBalance);
    }
    if parsed_metadata.seller_fee_basis_points > MAX_METADATA_CREATOR_ROYALTY_BP {
        return Err(MMMErrorCode::InvalidMetadataCreatorRoyalty);
    }

    let ghost gcreators = creators@;
    let ghost gaccounts = creator_accounts@;
    let ghost top = creator_payout_from(royalty, gcreators, gaccounts, min_rent, 0, 0, 0);

    let mut amounts: Vec<u64> = Vec::new();
    let mut computed_total: u64 = 0;
    let mut total_paid: u64 = 0;
    let mut idx: usize = 0;
    #[verifier::loop_isolation(false)]
    while idx < creators.len()
        invariant
            idx <= creators.len(),
            amounts@.len() == idx,
            ({
                match creator_payout_from(royalty, gcreators, gaccounts, min_rent, idx as int,
                    computed_total, total_paid) {
                    Ok(pair) => top == Ok::<(Seq<u64>, u64), MMMErrorCode>((
                        amounts@ + pair.0,
                        pair.1,
                    )),
                    Err(e) => top == Err::<(Seq<u64>, u64), MMMErrorCode>(e),
                }
            }),
        decreases creators.len() - idx,
    {
        let creator = creators[idx];
        let fee: u64 = if idx == creators.len() - 1 {
            match royalty.checked_sub(computed_total) {
                Some(v) => v,
                None => {
                    return Err(MMMErrorCode::NumericOverflow);
                },
            }
        } else {
            proof {
                lemma_mul_inequality(royalty as int, u64::MAX as int, creator.share as int);
                lemma_mul_nonnegative(royalty as int, creator.share as int);
            }
            let prod: u128 = royalty as u128 * creator.share as u128;
            let q: u128 = prod / 100;
            match u64::try_from(q) {
                Ok(v) => v,
                Err(_) => {
                    return Err(MMMErrorCode::NumericOverflow);
                },
            }
        };
        if idx >= creator_accounts.len() {
            return Err(MMMErrorCode::InvalidCreatorAddress);
        }
        let acct = creator_accounts[idx];
        if creator.address != acct.address {
            return Err(MMMErrorCode::InvalidCreatorAddress);
        }
        let mut viable = false;
        if fee > 0 {
            let after = match acct.lamports.checked_add(fee) {
                Some(v) => v,
                None => {
                    return Err(MMMErrorCode::NumericOverflow);
                },
            };
            if after > min_rent {
                viable = true;
            }
        }
        computed_total = match computed_total.checked_add(fee) {
            Some(v) => v,
            None => {
                return Err(MMMErrorCode::NumericOverflow);
            },
        };
        let mut amt: u64 = 0;
        if viable {
            total_paid = match total_paid.checked_add(fee) {
                Some(v) => v,
                None => {
                    return Err(MMMErrorCode::NumericOverflow);
                },
            };
            amt = fee;
        }
        let ghost old_amounts = amounts@;
        amounts.push(amt);
        proof {
            assert(amounts@ =~= old_amounts + seq![amt]);
            match creator_payout_from(royalty, gcreators, gaccounts, min_rent, idx + 1 as int,
                computed_total, total_paid) {
                Ok(pair) => {
                    assert(old_amounts + (seq![amt] + pair.0) =~= amounts@ + pair.0);
                },
                Err(_) => {},
            }
        }
        idx = idx + 1;
    }
    Ok((amounts, total_paid))
}

/// Law: LP fee is exactly zero whenever the pool holds no asset units, or
/// whenever its buy-side escrow balance is under the current spot price,
/// whatever rate the pool has configured.
pub proof fn lemma_lp_fee_zero_when_unready(
    pool: Pool,
    buyside_sol_escrow_balance: u64,
    total_sol_price: u64,
)
    requires
        pool.sellside_asset_amount == 0 || buyside_sol_escrow_balance < pool.spot_price,
    ensures
        sol_lp_fee_spec(pool, buyside_sol_escrow_balance, total_sol_price) == 0,
{
    assert(total_sol_price * 0 == 0) by (nonlinear_arith);
}

/// Law: the royalty split leaks nothing.  On a successful payout the
/// per-creator amounts sum exactly to the total moved and the total never
/// exceeds the royalty; when no transfer is skipped — every returned
/// amount is positive — the amounts sum to the royalty exactly, the last
/// creator receiving the exact remainder over the computed prior shares.
/// A skipped slice is forgone: it lowers the total and flows to nobody.
pub proof fn lemma_royalty_split_exact(
    royalty: u64,
    creators: Seq<Creator>,
    accounts: Seq<CreatorAccount>,
    min_rent: u64,
)
    requires
        1 <= creators.len(),
        creator_payout_from(royalty, creators, accounts, min_rent, 0, 0, 0) is Ok,
    ensures
        ({
            let pair = creator_payout_from(royalty, creators, accounts, min_rent, 0, 0, 0)->Ok_0;
            &&& pair.0.len() == creators.len()
            &&& pair.1 == seq_sum(pair.0)
            &&& pair.1 <= royalty
            &&& ((forall|j: int| 0 <= j < pair.0.len() ==> pair.0[j] > 0) ==> pair.1 == royalty)
        }),
{
    lemma_payout_from_props(royalty, creators, accounts, min_rent, 0, 0, 0);
}

/// The payout walk's invariants, generalized over its starting point: the
/// amounts from creator `i` on sum to at most the royalty not yet counted
/// as computed, with equality when every one of them is moved.
proof fn lemma_payout_from_props(
    royalty: u64,
    creators: Seq<Creator>,
    accounts: Seq<CreatorAccount>,
    min_rent: u64,
    i: int,
    computed: u64,
    paid: u64,
)
    requires
        0 <= i <= creators.len(),
        creator_payout_from(royalty, creators, accounts, min_rent, i, computed, paid) is Ok,
    ensures
        ({
            let pair = creator_payout_from(royalty, creators, accounts, min_rent, i, computed,
                paid)->Ok_0;
            &&& pair.0.len() == creators.len() - i
            &&& pair.1 == paid + seq_sum(pair.0)
            &&& (i < creators.len() ==> seq_sum(pair.0) <= royalty - computed)
            &&& (i < creators.len() && (forall|j: int| 0 <= j < pair.0.len() ==> pair.0[j] > 0)
                ==> seq_sum(pair.0) == royalty - computed)
        }),
    decreases creators.len() - i,
{
    if i < creators.len() {
        let fee_val: int = if i == creators.len() - 1 {
            royalty - computed
        } else {
            royalty * creators[i].share / 100
        };
        let moved = fee_val > 0 && accounts[i].lamports + fee_val > min_rent;
        let amt: u64 = if moved {
            fee_val as u64
        } else {
            0
        };
        if i < creators.len() - 1 {
            lemma_mul_nonnegative(royalty as int, creators[i].share as int);
            lemma_div_pos_is_pos(royalty * creators[i].share, 100);
        }
        lemma_payout_from_props(
            royalty,
            creators,
            accounts,
            min_rent,
            i + 1,
            (computed + fee_val) as u64,
            (paid + amt) as u64,
        );
        let rest = creator_payout_from(
            royalty,
            creators,
            accounts,
            min_rent,
            i + 1,
            (computed + fee_val) as u64,
            (paid + amt) as u64,
        )->Ok_0;
        assert((seq![amt] + rest.0).drop_first() =~= rest.0);
        assert(forall|j: int| 0 <= j < rest.0.len() ==> (seq![amt] + rest.0)[j + 1] == rest.0[j]);
        if i == creators.len() - 1 {
            assert(rest.0.len() == 0);
            assert(seq_sum(rest.0) == 0);
        }
    }
}

/// The sum of the computed percentage shares of the creators before index
/// `i`: what the payout walk counts as disbursed once it reaches `i`, the
/// last creator's remainder aside.
pub open spec fn shares_before(royalty: u64, creators: Seq<Creator>, i: int) -> int
    decreases i,
{
    if i <= 0 {
        0
    } else {
        shares_before(royalty, creators, i - 1) + royalty * creators[i - 1].share / 100
    }
}

/// Computed shares are never negative, so their running sum is not either.
proof fn lemma_shares_before_nonneg(royalty: u64, creators: Seq<Creator>, i: int)
    ensures
        0 <= shares_before(royalty, creators, i),
    decreases i,
{
    if i > 0 {
        lemma_shares_before_nonneg(royalty, creators, i - 1);
        lemma_mul_nonnegative(royalty as int, creators[i - 1].share as int);
        lemma_div_pos_is_pos(royalty * creators[i - 1].share, 100);
    }
}

/// The running sum of computed shares only grows along the walk.
proof fn lemma_shares_before_mono(royalty: u64, creators: Seq<Creator>, i: int, j: int)
    requires
        0 <= i <= j,
    ensures
        shares_before(royalty, creators, i) <= shares_before(royalty, creators, j),
    decreases j,
{
    if i < j {
        lemma_shares_before_mono(royalty, creators, i, j - 1);
        lemma_mul_nonnegative(royalty as int, creators[j - 1].share as int);
        lemma_div_pos_is_pos(royalty * creators[j - 1].share, 100);
    }
}

/// Law: when every beneficiary account matches its declared creator in
/// order and every computed fee — each non-last creator's percentage
/// share, and the last creator's remainder over those shares — is
/// positive, fits the recipient's balance, and leaves it above the
/// minimum viable balance, the payout succeeds outright: each creator but
/// the last is paid exactly its computed share, the last exactly the
/// remainder, and the amounts disburse the royalty whole.
pub proof fn lemma_royalty_split_covers_royalty(
    royalty: u64,
    creators: Seq<Creator>,
    accounts: Seq<CreatorAccount>,
    min_rent: u64,
)
    requires
        1 <= creators.len(),
        creators.len() <= accounts.len(),
        forall|j: int| 0 <= j < creators.len() ==> #[trigger] creators[j].address
            == accounts[j].address,
        forall|j: int| 0 <= j < creators.len() - 1 ==> {
            let fee = royalty * #[trigger] creators[j].share / 100;
            &&& fee > 0
            &&& accounts[j].lamports + fee <= u64::MAX
            &&& accounts[j].lamports + fee > min_rent
        },
        ({
            let last = creators.len() - 1;
            let fee = royalty - shares_before(royalty, creators, last);
            &&& fee > 0
            &&& accounts[last].lamports + fee <= u64::MAX
            &&& accounts[last].lamports + fee > min_rent
        }),
    ensures
        ({
            let r = creator_payout_from(royalty, creators, accounts, min_rent, 0, 0, 0);
            &&& r is Ok
            &&& r->Ok_0.0.len() == creators.len()
            &&& (forall|j: int| 0 <= j < creators.len() - 1 ==> r->Ok_0.0[j] == royalty
                * #[trigger] creators[j].share / 100)
            &&& r->Ok_0.0[creators.len() - 1] == royalty - shares_before(royalty, creators,
                creators.len() - 1)
            &&& r->Ok_0.1 == royalty
        }),
{
    assert(shares_before(royalty, creators, 0) == 0);
    lemma_payout_covers_from(royalty, creators, accounts, min_rent, 0, 0);
}

/// The walk from creator `i` on, with the computed accumulator at the sum
/// of the shares before `i` and every remaining transfer viable, pays each
/// remaining creator its computed fee.
proof fn lemma_payout_covers_from(
    royalty: u64,
    creators: Seq<Creator>,
    accounts: Seq<CreatorAccount>,
    min_rent: u64,
    i: int,
    paid: u64,
)
    requires
        0 <= i < creators.len(),
        creators.len() <= accounts.len(),
        forall|j: int| 0 <= j < creators.len() ==> #[trigger] creators[j].address
            == accounts[j].address,
        forall|j: int| 0 <= j < creators.len() - 1 ==> {
            let fee = royalty * #[trigger] creators[j].share / 100;
            &&& fee > 0
            &&& accounts[j].lamports + fee <= u64::MAX
            &&& accounts[j].lamports + fee > min_rent
        },
        ({
            let last = creators.len() - 1;
            let fee = royalty - shares_before(royalty, creators, last);
            &&& fee > 0
            &&& accounts[last].lamports + fee <= u64::MAX
            &&& accounts[last].lamports + fee > min_rent
        }),
        paid + (royalty - shares_before(royalty, creators, i)) <= u64::MAX,
    ensures
        ({
            let r = creator_payout_from(
                royalty,
                creators,
                accounts,
                min_rent,
                i,
                shares_before(royalty, creators, i) as u64,
                paid,
            );
            &&& r is Ok
            &&& r->Ok_0.0.len() == creators.len() - i
            &&& (forall|j: int| i <= j < creators.len() - 1 ==> r->Ok_0.0[j - i] == royalty
                * #[trigger] creators[j].share / 100)
            &&& r->Ok_0.0[creators.len() - 1 - i] == royalty - shares_before(royalty, creators,
                creators.len() - 1)
            &&& r->Ok_0.1 == paid + (royalty - shares_before(royalty, creators, i))
        }),
    decreases creators.len() - i,
{
    let last = creators.len() - 1;
    lemma_shares_before_nonneg(royalty, creators, i);
    lemma_shares_before_mono(royalty, creators, i, last);
    let computed: u64 = shares_before(royalty, creators, i) as u64;
    if i == last {
        let fee: int = royalty - computed;
        assert(creator_payout_from(
            royalty,
            creators,
            accounts,
            min_rent,
            i + 1,
            (computed + fee) as u64,
            (paid + fee) as u64,
        ) == Ok::<(Seq<u64>, u64), MMMErrorCode>((Seq::empty(), (paid + fee) as u64)));
    } else {
        let fee: int = royalty * creators[i].share / 100;
        assert(shares_before(royalty, creators, i + 1) == shares_before(royalty, creators, i)
            + fee);
        lemma_shares_before_mono(royalty, creators, i + 1, last);
        lemma_payout_covers_from(royalty, creators, accounts, min_rent, i + 1, (paid + fee) as u64);
        let rest = creator_payout_from(
            royalty,
            creators,
            accounts,
            min_rent,
            i + 1,
            shares_before(royalty, creators, i + 1) as u64,
            (paid + fee) as u64,
        )->Ok_0;
        assert(forall|j: int| 0 <= j < rest.0.len() ==> (seq![fee as u64] + rest.0)[j + 1]
            == rest.0[j]);
    }
}

} // verus!

