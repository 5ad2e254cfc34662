//! The closed set of error kinds that the core's operations surface.
//!
//! Every error aborts the whole in-flight operation: the functions of this
//! crate either complete fully or return one of these values and leave every
//! record exactly as it was.

use vstd::prelude::*;

verus! {

/// Why an operation was refused.  There is no silent clamping or rounding
/// substitution anywhere in the core: an out-of-range value always surfaces
/// as one of these.
#[derive(Clone, Copy, Debug, PartialEq, Eq, Structural)]
pub enum MMMErrorCode {
    /// A checked arithmetic step over- or underflowed, a narrowing did not
    /// fit, or a total price left the protocol-wide range.
    NumericOverflow,
    /// The curve kind is neither linear nor exponential.
    InvalidCurveType,
    /// An exponential curve was configured with a step above 10000 basis
    /// points.
    InvalidCurveDelta,
    /// A basis-point rate outside [0, 10000] was offered at pool
    /// configuration.
    InvalidBP,
    /// No allowlist entry matched the asset, or a malformed entry kind was
    /// encountered.
    InvalidAllowLists,
    /// The asset's metadata URI does not start with the caller-supplied
    /// prefix demanded by a URI-prefix allowlist entry.
    UnexpectedMetadataUri,
    /// An edition-marker account is present and non-empty but carries an
    /// unrecognized version tag.
    InvalidMasterEdition,
    /// The asset's declared royalty rate exceeds the protocol ceiling.
    InvalidMetadataCreatorRoyalty,
    /// The payer cannot cover the computed royalty.
    NotEnoughBalance,
    /// A supplied beneficiary account does not match the declared creator in
    /// the same position.
    InvalidCreatorAddress,
    /// A maker/taker referral fee configuration violates the magnitude
    /// bounds.
    InvalidMakerOrTakerFeeBP,
    /// The asset does not carry the programmable token-standard marker.
    InvalidTokenStandard,
}

} // verus!
