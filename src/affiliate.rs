use vstd::prelude::*;

use crate::address::Address;
use crate::error::{failed_with, AffiliateError};
use crate::state::{AffiliateLink, NFTCampaign};

verus! {

/// Makes the link that credits `affiliate` for sales on the campaign whose
/// record is at `campaign_address`, and counts it on the campaign. Fails with
/// `CalculationError`, changing nothing, where the count is at its maximum.
pub fn create_affiliate_link(
    campaign: &mut NFTCampaign,
    campaign_address: &Address,
    affiliate: &Address,
    created_at: i64,
) -> (r: Result<AffiliateLink, AffiliateError>)
    ensures
        old(campaign).affiliate_count == u64::MAX ==> failed_with(
            r,
            AffiliateError::CalculationError,
        ) && *final(campaign) == *old(campaign),
        old(campaign).affiliate_count < u64::MAX ==> (r matches Ok(link) && link.campaign@
            == campaign_address@ && link.affiliate@ == affiliate@ && link.settlement_count == 0
            && link.cumulative_earnings == 0 && link.created_at == created_at),
        old(campaign).affiliate_count < u64::MAX ==> *final(campaign) == (NFTCampaign {
            affiliate_count: (old(campaign).affiliate_count + 1) as u64,
            ..*old(campaign)
        }),
{
    if campaign.affiliate_count == u64::MAX {
        return Err(AffiliateError::CalculationError);
    }
    campaign.affiliate_count = campaign.affiliate_count + 1;
    Ok(
        AffiliateLink {
            campaign: *campaign_address,
            affiliate: *affiliate,
            settlement_count: 0,
            cumulative_earnings: 0,
            created_at,
        },
    )
}

} // verus!
