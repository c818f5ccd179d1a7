use vstd::prelude::*;

verus! {

/// Every way an operation of this library can fail.
#[derive(Clone, Copy, Debug, PartialEq, Eq, Structural)]
pub enum AffiliateError {
    /// A name or details text is longer than its bound.
    InvalidInput,
    /// A campaign price of zero.
    InvalidPrice,
    /// A commission rate above the basis-point denominator.
    InvalidCommissionRate,
    /// The asset is not deposited by the campaign's owner.
    UnauthorizedProjectOwner,
    /// The holding that should supply the asset does not hold it.
    AssetNotHeld,
    /// Settlement on a campaign that is not active.
    CampaignNotActive,
    /// The affiliate payout target is not the link's affiliate.
    InvalidInfluencer,
    /// The seller payout target is not the campaign's owner.
    InvalidAccountOwner,
    /// The escrow holds no unit of the asset.
    EscrowEmpty,
    /// The escrow already holds the campaign's unit of the asset.
    EscrowOccupied,
    /// The escrow holding is not held by the campaign's custody authority.
    EscrowAuthorityMismatch,
    /// A holding is of another asset than the campaign's.
    MintMismatch,
    /// Overflow or underflow in commission or counter arithmetic.
    CalculationError,
    /// No custody authority can be derived, or the stored one does not re-derive.
    DerivationExhausted,
}

} // verus!

verus! {

/// Whether `r` is the failure `e`.
pub open spec fn failed_with<T>(r: Result<T, AffiliateError>, e: AffiliateError) -> bool {
    r == Err::<T, AffiliateError>(e)
}

} // verus!
