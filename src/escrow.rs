use vstd::prelude::*;

use crate::address::same_address;
use crate::error::{failed_with, AffiliateError};
use crate::state::{NFTCampaign, TokenHolding};

verus! {

/// A holding with `delta` more units.
pub open spec fn moved(h: TokenHolding, delta: int) -> TokenHolding {
    TokenHolding { amount: (h.amount + delta) as u64, ..h }
}

/// Why moving one unit of the campaign's asset from `source` into `escrow`
/// fails, if it does. The escrow must be the empty holding of the campaign's
/// custody `authority`: it never holds more than one unit.
pub open spec fn deposit_failure(
    owner: Seq<u8>,
    asset: Seq<u8>,
    authority: Seq<u8>,
    source: TokenHolding,
    escrow: TokenHolding,
) -> Option<AffiliateError> {
    if source.owner@ != owner {
        Some(AffiliateError::UnauthorizedProjectOwner)
    } else if source.mint@ != asset || escrow.mint@ != asset {
        Some(AffiliateError::MintMismatch)
    } else if escrow.owner@ != authority {
        Some(AffiliateError::EscrowAuthorityMismatch)
    } else if source.amount == 0 {
        Some(AffiliateError::AssetNotHeld)
    } else if escrow.amount != 0 {
        Some(AffiliateError::EscrowOccupied)
    } else {
        None
    }
}

/// Why releasing one unit of the campaign's asset from `escrow`, the holding
/// of its custody `authority`, to `destination` fails, if it does.
pub open spec fn release_failure(
    asset: Seq<u8>,
    authority: Seq<u8>,
    escrow: TokenHolding,
    destination: TokenHolding,
) -> Option<AffiliateError> {
    if escrow.amount == 0 {
        Some(AffiliateError::EscrowEmpty)
    } else if escrow.mint@ != asset || destination.mint@ != asset {
        Some(AffiliateError::MintMismatch)
    } else if escrow.owner@ != authority {
        Some(AffiliateError::EscrowAuthorityMismatch)
    } else if destination.amount == u64::MAX {
        Some(AffiliateError::CalculationError)
    } else {
        None
    }
}

/// Moves one unit of the campaign's asset from the owner's `source` holding
/// into `escrow`, the empty holding of the campaign's custody authority,
/// which then holds exactly one unit. On failure neither holding changes.
pub fn deposit_nft(campaign: &NFTCampaign, source: &mut TokenHolding, escrow: &mut TokenHolding) -> (r:
    Result<(), AffiliateError>)
    ensures
        match deposit_failure(
            campaign.owner@,
            campaign.asset_mint@,
            campaign.escrow_authority@,
            *old(source),
            *old(escrow),
        ) {
            Some(e) => {
                &&& failed_with(r, e)
                &&& *final(source) == *old(source)
                &&& *final(escrow) == *old(escrow)
            },
            None => {
                &&& r is Ok
                &&& *final(source) == moved(*old(source), -1)
                &&& *final(escrow) == moved(*old(escrow), 1)
                &&& final(escrow).amount == 1
            },
        },
{
    if !same_address(&source.owner, &campaign.owner) {
        return Err(AffiliateError::UnauthorizedProjectOwner);
    }
    if !same_address(&source.mint, &campaign.asset_mint) || !same_address(
        &escrow.mint,
        &campaign.asset_mint,
    ) {
        return Err(AffiliateError::MintMismatch);
    }
    if !same_address(&escrow.owner, &campaign.escrow_authority) {
        return Err(AffiliateError::EscrowAuthorityMismatch);
    }
    if source.amount == 0 {
        return Err(AffiliateError::AssetNotHeld);
    }
    if escrow.amount != 0 {
        return Err(AffiliateError::EscrowOccupied);
    }
    source.amount = source.amount - 1;
    escrow.amount = escrow.amount + 1;
    Ok(())
}

/// Moves one unit of the campaign's asset out of `escrow` into the buyer's
/// `destination` holding. On failure neither holding changes.
pub fn release_nft(
    campaign: &NFTCampaign,
    escrow: &mut TokenHolding,
    destination: &mut TokenHolding,
) -> (r: Result<(), AffiliateError>)
    ensures
        match release_failure(
            campaign.asset_mint@,
            campaign.escrow_authority@,
            *old(escrow),
            *old(destination),
        ) {
            Some(e) => {
                &&& failed_with(r, e)
                &&& *final(escrow) == *old(escrow)
                &&& *final(destination) == *old(destination)
            },
            None => {
                &&& r is Ok
                &&& *final(escrow) == moved(*old(escrow), -1)
                &&& *final(destination) == moved(*old(destination), 1)
            },
        },
{
    if escrow.amount == 0 {
        return Err(AffiliateError::EscrowEmpty);
    }
    if !same_address(&escrow.mint, &campaign.asset_mint) || !same_address(
        &destination.mint,
        &campaign.asset_mint,
    ) {
        return Err(AffiliateError::MintMismatch);
    }
    if !same_address(&escrow.owner, &campaign.escrow_authority) {
        return Err(AffiliateError::EscrowAuthorityMismatch);
    }
    if destination.amount == u64::MAX {
        return Err(AffiliateError::CalculationError);
    }
    escrow.amount = escrow.amount - 1;
    destination.amount = destination.amount + 1;
    Ok(())
}

} // verus!
