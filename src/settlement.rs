use vstd::prelude::*;

use crate::address::{same_address, Address};
use crate::authority::{authority_rederives, check_escrow_authority};
use crate::commission::{commission_of, commission_split, lemma_split_is_exact, rate_in_bound};
use crate::error::{failed_with, AffiliateError};
use crate::escrow::{moved, release_failure, release_nft};
use crate::state::{AffiliateLink, NFTCampaign, TokenHolding};

verus! {

/// What a successful settlement moves: the payment split and the parties of
/// the three transfers that carry it out.
#[derive(Clone, Copy, Debug, PartialEq, Eq)]
pub struct Settlement {
    /// Payment units from the buyer to the affiliate.
    pub commission: u64,
    /// Payment units from the buyer to the seller.
    pub seller_share: u64,
    /// Who pays, and receives the asset.
    pub buyer: Address,
    /// Where the seller's share goes.
    pub seller_target: Address,
    /// Where the commission goes.
    pub affiliate_target: Address,
    /// The custody authority that signs the release of the asset.
    pub escrow_authority: Address,
    /// The bump seed with which the custody authority signs.
    pub escrow_bump: u8,
}

/// Why settling a sale fails, if it does. The checks come in this order:
/// the campaign is active, the payout targets are the link's affiliate and
/// the campaign's owner, the escrow can release the asset to the buyer, the
/// split computes, the stored custody authority re-derives, and the counters
/// have room.
pub open spec fn sale_failure(
    campaign: NFTCampaign,
    campaign_address: Seq<u8>,
    link: AffiliateLink,
    escrow: TokenHolding,
    buyer_holding: TokenHolding,
    seller_target: Seq<u8>,
    affiliate_target: Seq<u8>,
    program: Seq<u8>,
) -> Option<AffiliateError> {
    let commission = commission_of(campaign.price as int, campaign.commission_rate as int);
    if !campaign.active {
        Some(AffiliateError::CampaignNotActive)
    } else if affiliate_target != link.affiliate@ {
        Some(AffiliateError::InvalidInfluencer)
    } else if seller_target != campaign.owner@ {
        Some(AffiliateError::InvalidAccountOwner)
    } else if release_failure(
        campaign.asset_mint@,
        campaign.escrow_authority@,
        escrow,
        buyer_holding,
    ) is Some {
        release_failure(campaign.asset_mint@, campaign.escrow_authority@, escrow, buyer_holding)
    } else if commission > campaign.price {
        Some(AffiliateError::CalculationError)
    } else if !authority_rederives(
        campaign_address,
        campaign.escrow_bump,
        campaign.escrow_authority@,
        program,
    ) {
        Some(AffiliateError::DerivationExhausted)
    } else if campaign.total_settlements == u64::MAX || link.settlement_count == u64::MAX
        || link.cumulative_earnings + commission > u64::MAX {
        Some(AffiliateError::CalculationError)
    } else {
        None
    }
}

/// The campaign after one more settlement.
pub open spec fn settled_campaign(campaign: NFTCampaign) -> NFTCampaign {
    NFTCampaign { total_settlements: (campaign.total_settlements + 1) as u64, ..campaign }
}

/// The link after one more settlement that earned `commission`.
pub open spec fn settled_link(link: AffiliateLink, commission: int) -> AffiliateLink {
    AffiliateLink {
        settlement_count: (link.settlement_count + 1) as u64,
        cumulative_earnings: (link.cumulative_earnings + commission) as u64,
        ..link
    }
}

/// Settles one sale of the campaign's asset through `link`: splits the price
/// between the affiliate and the seller, releases the escrowed asset into the
/// buyer's holding, and counts the settlement on the campaign and the link.
/// The returned `Settlement` names the payment transfers to carry out with
/// it. On any failure nothing changes.
pub fn process_affiliate_mint(
    campaign: &mut NFTCampaign,
    campaign_address: &Address,
    link: &mut AffiliateLink,
    escrow: &mut TokenHolding,
    buyer_holding: &mut TokenHolding,
    seller_target: &Address,
    affiliate_target: &Address,
    program_id: &Address,
) -> (r: Result<Settlement, AffiliateError>)
    ensures
        match sale_failure(
            *old(campaign),
            campaign_address@,
            *old(link),
            *old(escrow),
            *old(buyer_holding),
            seller_target@,
            affiliate_target@,
            program_id@,
        ) {
            Some(e) => failed_with(r, e),
            None => r matches Ok(s) && {
                &&& s.commission == commission_of(
                    old(campaign).price as int,
                    old(campaign).commission_rate as int,
                )
                &&& s.seller_share == old(campaign).price - s.commission
                &&& s.buyer == old(buyer_holding).owner
                &&& s.seller_target == *seller_target
                &&& s.affiliate_target == *affiliate_target
                &&& s.escrow_authority == old(campaign).escrow_authority
                &&& s.escrow_bump == old(campaign).escrow_bump
            },
        },
        r is Err ==> {
            &&& *final(campaign) == *old(campaign)
            &&& *final(link) == *old(link)
            &&& *final(escrow) == *old(escrow)
            &&& *final(buyer_holding) == *old(buyer_holding)
        },
        r matches Ok(s) ==> {
            &&& *final(campaign) == settled_campaign(*old(campaign))
            &&& *final(link) == settled_link(*old(link), s.commission as int)
            &&& *final(escrow) == moved(*old(escrow), -1)
            &&& *final(buyer_holding) == moved(*old(buyer_holding), 1)
        },
{
    if !campaign.active {
        return Err(AffiliateError::CampaignNotActive);
    }
    if !same_address(affiliate_target, &link.affiliate) {
        return Err(AffiliateError::InvalidInfluencer);
    }
    if !same_address(seller_target, &campaign.owner) {
        return Err(AffiliateError::InvalidAccountOwner);
    }
    let mut escrow_after = *escrow;
    let mut buyer_after = *buyer_holding;
    match release_nft(campaign, &mut escrow_after, &mut buyer_after) {
        Ok(()) => {},
        Err(e) => {
            return Err(e);
        },
    }
    let (commission, seller_share) = match commission_split(campaign.price, campaign.commission_rate) {
        Ok(split) => split,
        Err(e) => {
            return Err(e);
        },
    };
    if !check_escrow_authority(
        campaign_address,
        campaign.escrow_bump,
        &campaign.escrow_authority,
        program_id,
    ) {
        return Err(AffiliateError::DerivationExhausted);
    }
    if campaign.total_settlements == u64::MAX || link.settlement_count == u64::MAX
        || link.cumulative_earnings > u64::MAX - commission {
        return Err(AffiliateError::CalculationError);
    }
    *escrow = escrow_after;
    *buyer_holding = buyer_after;
    campaign.total_settlements = campaign.total_settlements + 1;
    link.settlement_count = link.settlement_count + 1;
    link.cumulative_earnings = link.cumulative_earnings + commission;
    Ok(
        Settlement {
            commission,
            seller_share,
            buyer: buyer_holding.owner,
            seller_target: *seller_target,
            affiliate_target: *affiliate_target,
            escrow_authority: campaign.escrow_authority,
            escrow_bump: campaign.escrow_bump,
        },
    )
}

/// A settlement on a campaign that is not active fails with
/// `CampaignNotActive`, whatever else is given; a failed settlement changes
/// nothing.
pub proof fn lemma_inactive_campaign_rejected(
    campaign: NFTCampaign,
    campaign_address: Seq<u8>,
    link: AffiliateLink,
    escrow: TokenHolding,
    buyer_holding: TokenHolding,
    seller_target: Seq<u8>,
    affiliate_target: Seq<u8>,
    program: Seq<u8>,
)
    requires
        !campaign.active,
    ensures
        sale_failure(
            campaign,
            campaign_address,
            link,
            escrow,
            buyer_holding,
            seller_target,
            affiliate_target,
            program,
        ) == Some(AffiliateError::CampaignNotActive),
{
}

/// On an active campaign, a settlement whose affiliate payout target is not
/// the link's affiliate fails with `InvalidInfluencer`, whatever else is
/// given.
pub proof fn lemma_wrong_affiliate_rejected(
    campaign: NFTCampaign,
    campaign_address: Seq<u8>,
    link: AffiliateLink,
    escrow: TokenHolding,
    buyer_holding: TokenHolding,
    seller_target: Seq<u8>,
    affiliate_target: Seq<u8>,
    program: Seq<u8>,
)
    requires
        campaign.active,
        affiliate_target != link.affiliate@,
    ensures
        sale_failure(
            campaign,
            campaign_address,
            link,
            escrow,
            buyer_holding,
            seller_target,
            affiliate_target,
            program,
        ) == Some(AffiliateError::InvalidInfluencer),
{
}

/// On an active campaign, with the right payout targets, a settlement from an
/// empty escrow fails with `EscrowEmpty`. The failure changes nothing, so a
/// retry meets the same state and fails the same way.
pub proof fn lemma_empty_escrow_rejected(
    campaign: NFTCampaign,
    campaign_address: Seq<u8>,
    link: AffiliateLink,
    escrow: TokenHolding,
    buyer_holding: TokenHolding,
    program: Seq<u8>,
)
    requires
        campaign.active,
        escrow.amount == 0,
    ensures
        sale_failure(
            campaign,
            campaign_address,
            link,
            escrow,
            buyer_holding,
            campaign.owner@,
            link.affiliate@,
            program,
        ) == Some(AffiliateError::EscrowEmpty),
{
}

/// A settlement that drains an escrow of its single unit leaves the campaign
/// active, and every later settlement on it, through any link and to any
/// buyer, that passes the payout target checks fails with `EscrowEmpty`.
pub proof fn lemma_settled_escrow_stays_closed(
    campaign: NFTCampaign,
    campaign_address: Seq<u8>,
    link: AffiliateLink,
    escrow: TokenHolding,
    buyer_holding: TokenHolding,
    seller_target: Seq<u8>,
    affiliate_target: Seq<u8>,
    program: Seq<u8>,
    next_link: AffiliateLink,
    next_buyer_holding: TokenHolding,
)
    requires
        escrow.amount == 1,
        sale_failure(
            campaign,
            campaign_address,
            link,
            escrow,
            buyer_holding,
            seller_target,
            affiliate_target,
            program,
        ) is None,
    ensures
        settled_campaign(campaign).active,
        moved(escrow, -1).amount == 0,
        sale_failure(
            settled_campaign(campaign),
            campaign_address,
            next_link,
            moved(escrow, -1),
            next_buyer_holding,
            campaign.owner@,
            next_link.affiliate@,
            program,
        ) == Some(AffiliateError::EscrowEmpty),
{
}

/// A settlement that succeeds counts exactly one more settlement on the
/// campaign and on the link, and credits the link with exactly the
/// commission: none of the counters wraps.
pub proof fn lemma_settlement_counts(
    campaign: NFTCampaign,
    campaign_address: Seq<u8>,
    link: AffiliateLink,
    escrow: TokenHolding,
    buyer_holding: TokenHolding,
    seller_target: Seq<u8>,
    affiliate_target: Seq<u8>,
    program: Seq<u8>,
)
    requires
        sale_failure(
            campaign,
            campaign_address,
            link,
            escrow,
            buyer_holding,
            seller_target,
            affiliate_target,
            program,
        ) is None,
    ensures
        settled_campaign(campaign).total_settlements == campaign.total_settlements + 1,
        settled_link(
            link,
            commission_of(campaign.price as int, campaign.commission_rate as int),
        ).settlement_count == link.settlement_count + 1,
        settled_link(
            link,
            commission_of(campaign.price as int, campaign.commission_rate as int),
        ).cumulative_earnings == link.cumulative_earnings + commission_of(
            campaign.price as int,
            campaign.commission_rate as int,
        ),
{
}

/// A settlement succeeds on an active campaign with a rate within bound,
/// paid to the link's affiliate and the campaign's owner, from a funded
/// escrow of the campaign's asset held by its custody authority that still
/// re-derives, into a buyer's holding of that asset, with room in every
/// counter. The buyer then pays the commission to the affiliate and the rest
/// of the price to the seller, which together are the price exactly; the
/// rounding remainder stays with the seller.
pub proof fn lemma_sale_succeeds(
    campaign: NFTCampaign,
    campaign_address: Seq<u8>,
    link: AffiliateLink,
    escrow: TokenHolding,
    buyer_holding: TokenHolding,
    program: Seq<u8>,
)
    requires
        campaign.active,
        rate_in_bound(campaign.commission_rate as int),
        escrow.amount >= 1,
        escrow.mint@ == campaign.asset_mint@,
        escrow.owner@ == campaign.escrow_authority@,
        buyer_holding.mint@ == campaign.asset_mint@,
        buyer_holding.amount < u64::MAX,
        authority_rederives(
            campaign_address,
            campaign.escrow_bump,
            campaign.escrow_authority@,
            program,
        ),
        campaign.total_settlements < u64::MAX,
        link.settlement_count < u64::MAX,
        link.cumulative_earnings + commission_of(
            campaign.price as int,
            campaign.commission_rate as int,
        ) <= u64::MAX,
    ensures
        sale_failure(
            campaign,
            campaign_address,
            link,
            escrow,
            buyer_holding,
            campaign.owner@,
            link.affiliate@,
            program,
        ) is None,
        0 <= commission_of(campaign.price as int, campaign.commission_rate as int)
            <= campaign.price,
        commission_of(campaign.price as int, campaign.commission_rate as int) + (campaign.price
            - commission_of(campaign.price as int, campaign.commission_rate as int))
            == campaign.price,
{
    lemma_split_is_exact(campaign.price, campaign.commission_rate);
}

} // verus!
