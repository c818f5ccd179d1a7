use vstd::prelude::*;

use crate::address::Address;
use crate::commission::rate_in_bound;

verus! {

/// Longest campaign name, in bytes.
pub const MAX_NAME_LEN: usize = 32;

/// Longest campaign details text, in bytes.
pub const MAX_DETAILS_LEN: usize = 200;

/// A sale campaign: one escrowed asset offered at a fixed price, with a
/// commission for the affiliate through whom it sells.
#[derive(Clone, Debug, PartialEq, Eq)]
pub struct NFTCampaign {
    /// The seller, who created the campaign and receives the seller's share.
    pub owner: Address,
    /// The mint of the escrowed asset.
    pub asset_mint: Address,
    /// The derived authority that holds the escrow.
    pub escrow_authority: Address,
    /// The bump seed that re-derives `escrow_authority`.
    pub escrow_bump: u8,
    /// Price of the asset in payment units.
    pub price: u64,
    /// Affiliate commission in basis points.
    pub commission_rate: u16,
    /// Whether the campaign accepts settlements.
    pub active: bool,
    /// Number of affiliate links made on the campaign.
    pub affiliate_count: u64,
    /// Number of settlements made on the campaign.
    pub total_settlements: u64,
    /// Campaign name, at most `MAX_NAME_LEN` bytes.
    pub name: Vec<u8>,
    /// Campaign details, at most `MAX_DETAILS_LEN` bytes.
    pub details: Vec<u8>,
    /// Creation time, in seconds since the Unix epoch.
    pub created_at: i64,
}

impl NFTCampaign {
    /// What every campaign keeps true from its creation on.
    pub open spec fn wf(&self) -> bool {
        &&& self.price > 0
        &&& rate_in_bound(self.commission_rate as int)
        &&& self.name@.len() <= MAX_NAME_LEN
        &&& self.details@.len() <= MAX_DETAILS_LEN
    }
}

/// A referral link: credits one affiliate for sales on one campaign.
#[derive(Clone, Debug, PartialEq, Eq)]
pub struct AffiliateLink {
    /// Address of the campaign record the link belongs to.
    pub campaign: Address,
    /// The affiliate, who receives the commission.
    pub affiliate: Address,
    /// Number of settlements made through the link.
    pub settlement_count: u64,
    /// Sum of the commissions credited through the link.
    pub cumulative_earnings: u64,
    /// Creation time, in seconds since the Unix epoch.
    pub created_at: i64,
}

/// What a token account holds of one asset: its mint, its owner and the
/// number of units.
#[derive(Clone, Copy, Debug, PartialEq, Eq)]
pub struct TokenHolding {
    pub mint: Address,
    pub owner: Address,
    pub amount: u64,
}

} // verus!
