//! Protocol-wide ceilings, fixed for every pool.

use vstd::prelude::*;

verus! {

/// No single trade's total price may exceed this many payment units.
pub const MAX_TOTAL_PRICE: u64 = 8_000_000 * 1_000_000_000;

/// Ceiling on the royalty rate an asset's metadata may declare, in basis
/// points.
pub const MAX_METADATA_CREATOR_ROYALTY_BP: u16 = 3000;

/// Magnitude bound on maker and taker referral fees, in basis points.
pub const MAX_REFERRAL_FEE_BP: i16 = 500;

} // verus!
