//! The records the core operates on, and the read-only metadata it consumes.
//!
//! Accounts of the host ledger are identified here by plain unsigned
//! identifiers: the core only ever compares identities for equality, so an
//! address is modelled as a `u64` with `0` playing the part of the unset
//! (default) address.

use vstd::prelude::*;

verus! {

/// Allowlist entry kind: placeholder entry that never matches.
pub const ALLOWLIST_KIND_EMPTY: u8 = 0;

/// Allowlist entry kind: match on the first verified creator's address.
pub const ALLOWLIST_KIND_FVCA: u8 = 1;

/// Allowlist entry kind: match on the asset's own identifier.
pub const ALLOWLIST_KIND_MINT: u8 = 2;

/// Allowlist entry kind: match on a verified collection reference.
pub const ALLOWLIST_KIND_MCC: u8 = 3;

/// Allowlist entry kind: constrain every match by a metadata URI prefix.
/// This kind never produces a match by itself.
pub const ALLOWLIST_KIND_METADATA: u8 = 4;

/// Curve kind: the spot price moves by an arithmetic step.
pub const CURVE_KIND_LINEAR: u8 = 0;

/// Curve kind: the spot price moves by a basis-point ratio.
pub const CURVE_KIND_EXP: u8 = 1;

/// One eligibility rule of a pool's allowlist.  A set of entries is
/// satisfied if any entry matches.
#[derive(Clone, Copy, Debug, PartialEq, Eq, Structural)]
pub struct Allowlist {
    /// One of the `ALLOWLIST_KIND_*` values.
    pub kind: u8,
    /// The address the entry matches against; unused for the empty and
    /// URI-prefix kinds.
    pub value: u64,
}

impl Allowlist {
    /// A well-formed entry: a recognized kind, and a set address wherever
    /// the kind matches against one.
    pub open spec fn valid_spec(self) -> bool {
        &&& self.kind <= ALLOWLIST_KIND_METADATA
        &&& (self.kind == ALLOWLIST_KIND_FVCA || self.kind == ALLOWLIST_KIND_MINT
            || self.kind == ALLOWLIST_KIND_MCC) ==> self.value != 0
    }

    /// Decides whether this entry is well-formed.
    pub fn valid(&self) -> (r: bool)
        ensures
            r == self.valid_spec(),
    {
        if self.kind > ALLOWLIST_KIND_METADATA {
            return false;
        }
        if self.kind == ALLOWLIST_KIND_FVCA || self.kind == ALLOWLIST_KIND_MINT
            || self.kind == ALLOWLIST_KIND_MCC {
            return self.value != 0;
        }
        true
    }
}

/// One market record: a curve configuration and the two escrowed balances.
pub struct Pool {
    /// The current quoted unit price, in payment-unit granularity.
    pub spot_price: u64,
    /// One of the `CURVE_KIND_*` values.
    pub curve_type: u8,
    /// Step size for a linear curve; basis-point ratio for an exponential
    /// one.
    pub curve_delta: u64,
    /// Liquidity-provider fee in basis points, applied only while the pool
    /// can fulfill in both directions.
    pub lp_fee_bp: u16,
    /// Count of asset units the pool holds and offers for sale.
    pub sellside_asset_amount: u64,
    /// Payment-unit balance available to buy assets.
    pub buyside_payment_amount: u64,
    /// The pool's eligibility rules, logically unioned.
    pub allowlists: Vec<Allowlist>,
}

impl Pool {
    /// The configuration invariant established at creation and update and
    /// preserved by every operation: a recognized curve, an exponential step
    /// within basis-point range, an LP fee within basis-point range, and
    /// well-formed allowlist entries.
    pub open spec fn wf(self) -> bool {
        &&& self.curve_type <= CURVE_KIND_EXP
        &&& self.curve_type == CURVE_KIND_EXP ==> self.curve_delta <= 10000
        &&& self.lp_fee_bp <= 10000
        &&& forall|i: int| 0 <= i < self.allowlists@.len() ==> self.allowlists@[i].valid_spec()
    }
}

/// Per-asset-per-pool inventory record: how many units of one specific
/// asset the pool currently escrows.
#[derive(Clone, Copy, Debug, PartialEq, Eq, Structural)]
pub struct SellState {
    /// Units of the asset held for this pool.
    pub asset_amount: u64,
}

/// One creator beneficiary declared by an asset's metadata.
#[derive(Clone, Copy, Debug, PartialEq, Eq, Structural)]
pub struct Creator {
    /// The beneficiary's address.
    pub address: u64,
    /// Whether the creator has verified the declaration.
    pub verified: bool,
    /// Share of the royalty, 0 to 100; shares across all creators of one
    /// asset sum to 100.
    pub share: u8,
}

/// A beneficiary account offered for a royalty transfer: its address and
/// its balance before the payout.
#[derive(Clone, Copy, Debug, PartialEq, Eq, Structural)]
pub struct CreatorAccount {
    /// The account's address.
    pub address: u64,
    /// The account's payment-unit balance before the payout.
    pub lamports: u64,
}

/// A collection reference declared by an asset's metadata.
#[derive(Clone, Copy, Debug, PartialEq, Eq, Structural)]
pub struct Collection {
    /// The collection's address.
    pub key: u64,
    /// Whether the reference is verified.
    pub verified: bool,
}

/// The token-standard marker of an asset.
#[derive(Clone, Copy, Debug, PartialEq, Eq, Structural)]
pub enum TokenStandard {
    NonFungible,
    FungibleAsset,
    Fungible,
    NonFungibleEdition,
    ProgrammableNonFungible,
}

/// Parsed asset metadata, supplied read-only by the metadata source.
pub struct AssetMetadata {
    /// The declared creator beneficiaries, in order, if any.
    pub creators: Option<Vec<Creator>>,
    /// The declared collection reference, if any.
    pub collection: Option<Collection>,
    /// The metadata URI, as bytes.
    pub uri: Vec<u8>,
    /// The declared royalty rate in basis points.
    pub seller_fee_basis_points: u16,
    /// The token-standard marker, if declared.
    pub token_standard: Option<TokenStandard>,
}

} // verus!
