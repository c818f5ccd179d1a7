use vstd::prelude::*;

use crate::address::Address;
use crate::authority::{authority_rederives, bump_search, derive_escrow_authority, escrow_seeds};
use crate::commission::{rate_in_bound, RATE_DENOMINATOR};
use crate::error::{failed_with, AffiliateError};
use crate::escrow::{deposit_failure, deposit_nft, moved};
use crate::state::{NFTCampaign, TokenHolding, MAX_DETAILS_LEN, MAX_NAME_LEN};

verus! {

/// Why a campaign with these terms, whose record is at `campaign`, cannot be
/// set up, if it cannot.
pub open spec fn initialize_failure(
    price: u64,
    commission_rate: u16,
    name: Seq<u8>,
    details: Seq<u8>,
    campaign: Seq<u8>,
    program: Seq<u8>,
) -> Option<AffiliateError> {
    if price == 0 {
        Some(AffiliateError::InvalidPrice)
    } else if !rate_in_bound(commission_rate as int) {
        Some(AffiliateError::InvalidCommissionRate)
    } else if name.len() > MAX_NAME_LEN || details.len() > MAX_DETAILS_LEN {
        Some(AffiliateError::InvalidInput)
    } else if bump_search(escrow_seeds(campaign), program) is None {
        Some(AffiliateError::DerivationExhausted)
    } else {
        None
    }
}

/// Whether `c` is the fresh campaign of these terms, held by the derived
/// custody authority of the record at `campaign`.
pub open spec fn is_fresh_campaign(
    c: NFTCampaign,
    owner: Seq<u8>,
    asset_mint: Seq<u8>,
    price: u64,
    commission_rate: u16,
    name: Seq<u8>,
    details: Seq<u8>,
    created_at: i64,
    campaign: Seq<u8>,
    program: Seq<u8>,
) -> bool {
    &&& c.owner@ == owner
    &&& c.asset_mint@ == asset_mint
    &&& bump_search(escrow_seeds(campaign), program) == Some((c.escrow_authority@, c.escrow_bump))
    &&& c.price == price
    &&& c.commission_rate == commission_rate
    &&& c.active
    &&& c.affiliate_count == 0
    &&& c.total_settlements == 0
    &&& c.name@ == name
    &&& c.details@ == details
    &&& c.created_at == created_at
    &&& c.wf()
    &&& authority_rederives(campaign, c.escrow_bump, c.escrow_authority@, program)
}

/// Builds the record of a new campaign whose record is at `campaign_address`:
/// checks the terms and derives the authority that will hold its escrow.
/// Only `create_nft_campaign`, which funds the escrow in the same step, hands
/// such a record out.
pub(crate) fn initialize_campaign(
    owner: &Address,
    asset_mint: &Address,
    price: u64,
    commission_rate: u16,
    name: Vec<u8>,
    details: Vec<u8>,
    created_at: i64,
    campaign_address: &Address,
    program_id: &Address,
) -> (r: Result<NFTCampaign, AffiliateError>)
    ensures
        match initialize_failure(
            price,
            commission_rate,
            name@,
            details@,
            campaign_address@,
            program_id@,
        ) {
            Some(e) => failed_with(r, e),
            None => r matches Ok(c) && is_fresh_campaign(
                c,
                owner@,
                asset_mint@,
                price,
                commission_rate,
                name@,
                details@,
                created_at,
                campaign_address@,
                program_id@,
            ),
        },
{
    if price == 0 {
        return Err(AffiliateError::InvalidPrice);
    }
    if commission_rate as u64 > RATE_DENOMINATOR {
        return Err(AffiliateError::InvalidCommissionRate);
    }
    if name.len() > MAX_NAME_LEN || details.len() > MAX_DETAILS_LEN {
        return Err(AffiliateError::InvalidInput);
    }
    let (escrow_authority, escrow_bump) = match derive_escrow_authority(
        campaign_address,
        program_id,
    ) {
        Ok(found) => found,
        Err(e) => {
            return Err(e);
        },
    };
    Ok(
        NFTCampaign {
            owner: *owner,
            asset_mint: *asset_mint,
            escrow_authority,
            escrow_bump,
            price,
            commission_rate,
            active: true,
            affiliate_count: 0,
            total_settlements: 0,
            name,
            details,
            created_at,
        },
    )
}

/// Creates a campaign and, in the same step, moves one unit of its asset
/// from the owner's `source` holding into `escrow`, which must be the empty
/// holding of the campaign's derived custody authority. Where either part
/// fails nothing is created and neither holding changes.
pub fn create_nft_campaign(
    owner: &Address,
    asset_mint: &Address,
    price: u64,
    commission_rate: u16,
    name: Vec<u8>,
    details: Vec<u8>,
    created_at: i64,
    campaign_address: &Address,
    program_id: &Address,
    source: &mut TokenHolding,
    escrow: &mut TokenHolding,
) -> (r: Result<NFTCampaign, AffiliateError>)
    ensures
        match initialize_failure(
            price,
            commission_rate,
            name@,
            details@,
            campaign_address@,
            program_id@,
        ) {
            Some(e) => failed_with(r, e),
            None => match deposit_failure(
                owner@,
                asset_mint@,
                bump_search(escrow_seeds(campaign_address@), program_id@)->Some_0.0,
                *old(source),
                *old(escrow),
            ) {
                Some(e) => failed_with(r, e),
                None => r matches Ok(c) && is_fresh_campaign(
                    c,
                    owner@,
                    asset_mint@,
                    price,
                    commission_rate,
                    name@,
                    details@,
                    created_at,
                    campaign_address@,
                    program_id@,
                ),
            },
        },
        r is Err ==> *final(source) == *old(source) && *final(escrow) == *old(escrow),
        r is Ok ==> *final(source) == moved(*old(source), -1) && *final(escrow) == moved(
            *old(escrow),
            1,
        ),
        r matches Ok(c) ==> final(escrow).amount == 1 && final(escrow).owner == c.escrow_authority
            && final(escrow).mint == c.asset_mint,
{
    let campaign = match initialize_campaign(
        owner,
        asset_mint,
        price,
        commission_rate,
        name,
        details,
        created_at,
        campaign_address,
        program_id,
    ) {
        Ok(c) => c,
        Err(e) => {
            return Err(e);
        },
    };
    match deposit_nft(&campaign, source, escrow) {
        Ok(()) => Ok(campaign),
        Err(e) => Err(e),
    }
}

/// A campaign with a price of zero is refused with `InvalidPrice`, whatever
/// its other terms; the refusal creates no record and moves no asset.
pub proof fn lemma_zero_price_rejected(
    commission_rate: u16,
    name: Seq<u8>,
    details: Seq<u8>,
    campaign: Seq<u8>,
    program: Seq<u8>,
)
    ensures
        initialize_failure(0, commission_rate, name, details, campaign, program) == Some(
            AffiliateError::InvalidPrice,
        ),
{
}

} // verus!
