use affiliate_dapp::address::Address;
use affiliate_dapp::affiliate::create_affiliate_link;
use affiliate_dapp::authority::{
    affiliate_link_address, campaign_address, check_escrow_authority, derive_escrow_authority,
};
use affiliate_dapp::campaign::create_nft_campaign;
use affiliate_dapp::commission::commission_split;
use affiliate_dapp::error::AffiliateError;
use affiliate_dapp::escrow::{deposit_nft, release_nft};
use affiliate_dapp::settlement::process_affiliate_mint;
use affiliate_dapp::state::{AffiliateLink, NFTCampaign, TokenHolding};
use anchor_lang::solana_program::pubkey::Pubkey;

const PROGRAM: Address = [7u8; 32];
const SELLER: Address = [1u8; 32];
const MINT: Address = [2u8; 32];
const AFFILIATE: Address = [3u8; 32];
const BUYER: Address = [4u8; 32];
const CAMPAIGN_AT: Address = [5u8; 32];
const STRANGER: Address = [9u8; 32];

fn find(seeds: &[&[u8]]) -> (Address, u8) {
    let (k, b) = Pubkey::find_program_address(seeds, &Pubkey::new_from_array(PROGRAM));
    (k.to_bytes(), b)
}

struct Market {
    campaign: NFTCampaign,
    link: AffiliateLink,
    escrow: TokenHolding,
    buyer: TokenHolding,
}

fn market(price: u64, rate: u16) -> Market {
    let (authority, _) = find(&[b"nft_escrow", &CAMPAIGN_AT]);
    let mut source = TokenHolding { mint: MINT, owner: SELLER, amount: 1 };
    let mut escrow = TokenHolding { mint: MINT, owner: authority, amount: 0 };
    let mut campaign = create_nft_campaign(
        &SELLER,
        &MINT,
        price,
        rate,
        b"launch".to_vec(),
        b"first edition".to_vec(),
        1_700_000_000,
        &CAMPAIGN_AT,
        &PROGRAM,
        &mut source,
        &mut escrow,
    )
    .unwrap();
    let link = create_affiliate_link(&mut campaign, &CAMPAIGN_AT, &AFFILIATE, 1_700_000_100).unwrap();
    let buyer = TokenHolding { mint: MINT, owner: BUYER, amount: 0 };
    Market { campaign, link, escrow, buyer }
}

fn settle(m: &mut Market, seller: &Address, affiliate: &Address) -> Result<affiliate_dapp::settlement::Settlement, AffiliateError> {
    process_affiliate_mint(
        &mut m.campaign,
        &CAMPAIGN_AT,
        &mut m.link,
        &mut m.escrow,
        &mut m.buyer,
        seller,
        affiliate,
        &PROGRAM,
    )
}

#[test]
fn split_of_example_sale() {
    assert_eq!(commission_split(1_000_000, 500), Ok((50_000, 950_000)));
}

#[test]
fn split_rounds_down_in_favour_of_seller() {
    assert_eq!(commission_split(7, 3333), Ok((2, 5)));
    assert_eq!(commission_split(9_999, 1), Ok((0, 9_999)));
}

#[test]
fn split_edges() {
    assert_eq!(commission_split(100, 10_000), Ok((100, 0)));
    assert_eq!(commission_split(100, 0), Ok((0, 100)));
    assert_eq!(commission_split(u64::MAX, 10_000), Ok((u64::MAX, 0)));
    assert_eq!(commission_split(u64::MAX, 5_000), Ok((u64::MAX / 2, u64::MAX - u64::MAX / 2)));
}

#[test]
fn split_sums_to_price() {
    for &(price, rate) in &[(1u64, 1u16), (123_456_789, 777), (u64::MAX, 9_999), (10_001, 10_000)] {
        let (c, s) = commission_split(price, rate).unwrap();
        assert_eq!(c + s, price);
    }
}

#[test]
fn split_above_bound_fails() {
    assert_eq!(commission_split(100, 20_000), Err(AffiliateError::CalculationError));
    assert_eq!(commission_split(u64::MAX, u16::MAX), Err(AffiliateError::CalculationError));
}

#[test]
fn escrow_authority_is_derived_address() {
    let (a, b) = derive_escrow_authority(&CAMPAIGN_AT, &PROGRAM).unwrap();
    assert_eq!((a, b), find(&[b"nft_escrow", &CAMPAIGN_AT]));
    assert_ne!(a, CAMPAIGN_AT);
    assert!(check_escrow_authority(&CAMPAIGN_AT, b, &a, &PROGRAM));
    assert!(!check_escrow_authority(&CAMPAIGN_AT, b, &STRANGER, &PROGRAM));
    assert!(!check_escrow_authority(&STRANGER, b, &a, &PROGRAM));
}

#[test]
fn record_addresses_are_derived() {
    let name = b"launch".to_vec();
    assert_eq!(campaign_address(&name, &PROGRAM), Ok(find(&[b"nft_campaign", b"launch"])));
    assert_eq!(
        affiliate_link_address(&AFFILIATE, &name, &PROGRAM),
        Ok(find(&[b"affiliate_link", &AFFILIATE, b"launch"]))
    );
}

#[test]
fn seed_too_long_is_exhausted() {
    let name = vec![b'x'; 33];
    assert_eq!(campaign_address(&name, &PROGRAM), Err(AffiliateError::DerivationExhausted));
}

fn authority() -> Address {
    find(&[b"nft_escrow", &CAMPAIGN_AT]).0
}

fn create(
    price: u64,
    rate: u16,
    name: Vec<u8>,
    details: Vec<u8>,
    source: &mut TokenHolding,
    escrow: &mut TokenHolding,
) -> Result<NFTCampaign, AffiliateError> {
    create_nft_campaign(&SELLER, &MINT, price, rate, name, details, 42, &CAMPAIGN_AT, &PROGRAM, source, escrow)
}

#[test]
fn create_sets_fresh_campaign() {
    let mut source = TokenHolding { mint: MINT, owner: SELLER, amount: 1 };
    let mut escrow = TokenHolding { mint: MINT, owner: authority(), amount: 0 };
    let c = create(1_000_000, 500, b"launch".to_vec(), b"d".to_vec(), &mut source, &mut escrow).unwrap();
    let (a, b) = find(&[b"nft_escrow", &CAMPAIGN_AT]);
    assert_eq!(c.owner, SELLER);
    assert_eq!(c.asset_mint, MINT);
    assert_eq!(c.escrow_authority, a);
    assert_eq!(c.escrow_bump, b);
    assert_eq!(c.price, 1_000_000);
    assert_eq!(c.commission_rate, 500);
    assert!(c.active);
    assert_eq!(c.affiliate_count, 0);
    assert_eq!(c.total_settlements, 0);
    assert_eq!(c.name, b"launch".to_vec());
    assert_eq!(c.details, b"d".to_vec());
    assert_eq!(c.created_at, 42);
    assert_eq!((source.amount, escrow.amount), (0, 1));
}

#[test]
fn create_rejects_bad_terms() {
    let init = |price: u64, rate: u16, name: Vec<u8>, details: Vec<u8>| {
        let mut source = TokenHolding { mint: MINT, owner: SELLER, amount: 1 };
        let mut escrow = TokenHolding { mint: MINT, owner: authority(), amount: 0 };
        let r = create(price, rate, name, details, &mut source, &mut escrow);
        if r.is_err() {
            assert_eq!((source.amount, escrow.amount), (1, 0));
        }
        r
    };
    assert_eq!(init(0, 500, b"n".to_vec(), vec![]), Err(AffiliateError::InvalidPrice));
    assert_eq!(init(0, 20_000, vec![0; 40], vec![]), Err(AffiliateError::InvalidPrice));
    assert_eq!(init(1, 10_001, b"n".to_vec(), vec![]), Err(AffiliateError::InvalidCommissionRate));
    assert_eq!(init(1, 10_000, vec![0; 33], vec![]), Err(AffiliateError::InvalidInput));
    assert_eq!(init(1, 10_000, vec![0; 32], vec![0; 201]), Err(AffiliateError::InvalidInput));
    assert!(init(1, 10_000, vec![0; 32], vec![0; 200]).is_ok());
}

#[test]
fn zero_price_creates_nothing() {
    let mut source = TokenHolding { mint: MINT, owner: SELLER, amount: 1 };
    let mut escrow = TokenHolding { mint: MINT, owner: STRANGER, amount: 0 };
    let r = create_nft_campaign(
        &SELLER, &MINT, 0, 500, b"launch".to_vec(), vec![], 0, &CAMPAIGN_AT, &PROGRAM, &mut source, &mut escrow,
    );
    assert_eq!(r, Err(AffiliateError::InvalidPrice));
    assert_eq!(source.amount, 1);
    assert_eq!(escrow.amount, 0);
}

#[test]
fn create_campaign_funds_escrow() {
    let m = market(1_000_000, 500);
    assert_eq!(m.escrow.amount, 1);
    assert_eq!(m.campaign.affiliate_count, 1);
}

#[test]
fn create_campaign_fails_when_deposit_fails() {
    let check = |source: TokenHolding, escrow: TokenHolding, expected: AffiliateError| {
        let (mut s, mut e) = (source, escrow);
        assert_eq!(create(10, 500, b"launch".to_vec(), vec![], &mut s, &mut e), Err(expected));
        assert_eq!((s, e), (source, escrow));
    };
    let source = TokenHolding { mint: MINT, owner: SELLER, amount: 1 };
    let escrow = TokenHolding { mint: MINT, owner: authority(), amount: 0 };
    check(TokenHolding { owner: STRANGER, ..source }, escrow, AffiliateError::UnauthorizedProjectOwner);
    check(TokenHolding { mint: STRANGER, ..source }, escrow, AffiliateError::MintMismatch);
    check(source, TokenHolding { mint: STRANGER, ..escrow }, AffiliateError::MintMismatch);
    check(source, TokenHolding { owner: STRANGER, ..escrow }, AffiliateError::EscrowAuthorityMismatch);
    check(TokenHolding { amount: 0, ..source }, escrow, AffiliateError::AssetNotHeld);
    check(source, TokenHolding { amount: 1, ..escrow }, AffiliateError::EscrowOccupied);
}

#[test]
fn deposit_and_release_move_one_unit() {
    let m = market(10, 0);
    let mut source = TokenHolding { mint: MINT, owner: SELLER, amount: 3 };
    let mut escrow = TokenHolding { mint: MINT, owner: authority(), amount: 0 };
    assert_eq!(deposit_nft(&m.campaign, &mut source, &mut escrow), Ok(()));
    assert_eq!((source.amount, escrow.amount), (2, 1));
    assert_eq!(deposit_nft(&m.campaign, &mut source, &mut escrow), Err(AffiliateError::EscrowOccupied));
    assert_eq!((source.amount, escrow.amount), (2, 1));
    let mut dest = TokenHolding { mint: MINT, owner: BUYER, amount: 0 };
    assert_eq!(release_nft(&m.campaign, &mut escrow, &mut dest), Ok(()));
    assert_eq!((escrow.amount, dest.amount), (0, 1));
    assert_eq!(release_nft(&m.campaign, &mut escrow, &mut dest), Err(AffiliateError::EscrowEmpty));
    escrow.amount = 1;
    dest.mint = STRANGER;
    assert_eq!(release_nft(&m.campaign, &mut escrow, &mut dest), Err(AffiliateError::MintMismatch));
    dest.mint = MINT;
    escrow.owner = STRANGER;
    assert_eq!(release_nft(&m.campaign, &mut escrow, &mut dest), Err(AffiliateError::EscrowAuthorityMismatch));
    assert_eq!((escrow.amount, dest.amount), (1, 1));
}

#[test]
fn foreign_escrow_rejected_at_sale() {
    let mut m = market(1_000, 500);
    m.escrow.owner = STRANGER;
    assert_eq!(settle(&mut m, &SELLER, &AFFILIATE), Err(AffiliateError::EscrowAuthorityMismatch));
    assert_eq!(m.escrow.amount, 1);
    assert_eq!(m.campaign.total_settlements, 0);
}

#[test]
fn affiliate_link_counts_on_campaign() {
    let mut m = market(10, 0);
    let link = create_affiliate_link(&mut m.campaign, &CAMPAIGN_AT, &STRANGER, 99).unwrap();
    assert_eq!(
        link,
        AffiliateLink { campaign: CAMPAIGN_AT, affiliate: STRANGER, settlement_count: 0, cumulative_earnings: 0, created_at: 99 }
    );
    assert_eq!(m.campaign.affiliate_count, 2);
    m.campaign.affiliate_count = u64::MAX;
    let before = m.campaign.clone();
    assert_eq!(
        create_affiliate_link(&mut m.campaign, &CAMPAIGN_AT, &STRANGER, 99),
        Err(AffiliateError::CalculationError)
    );
    assert_eq!(m.campaign, before);
}

#[test]
fn example_sale_then_escrow_empty() {
    let mut m = market(1_000_000, 500);
    let s = settle(&mut m, &SELLER, &AFFILIATE).unwrap();
    assert_eq!(s.commission, 50_000);
    assert_eq!(s.seller_share, 950_000);
    assert_eq!(s.buyer, BUYER);
    assert_eq!(s.seller_target, SELLER);
    assert_eq!(s.affiliate_target, AFFILIATE);
    assert_eq!((s.escrow_authority, s.escrow_bump), find(&[b"nft_escrow", &CAMPAIGN_AT]));
    assert_eq!(m.escrow.amount, 0);
    assert_eq!(m.buyer.amount, 1);
    assert_eq!(m.campaign.total_settlements, 1);
    assert_eq!(m.link.settlement_count, 1);
    assert_eq!(m.link.cumulative_earnings, 50_000);
    for _ in 0..3 {
        let before = (m.campaign.clone(), m.link.clone(), m.escrow, m.buyer);
        assert_eq!(settle(&mut m, &SELLER, &AFFILIATE), Err(AffiliateError::EscrowEmpty));
        assert_eq!((m.campaign.clone(), m.link.clone(), m.escrow, m.buyer), before);
    }
}

#[test]
fn settlement_counters_accumulate() {
    let mut m = market(333, 1_000);
    m.link.cumulative_earnings = 7;
    m.link.settlement_count = 4;
    settle(&mut m, &SELLER, &AFFILIATE).unwrap();
    assert_eq!(m.link.settlement_count, 5);
    assert_eq!(m.link.cumulative_earnings, 7 + 33);
    assert_eq!(m.campaign.total_settlements, 1);
}

#[test]
fn inactive_campaign_rejected() {
    let mut m = market(1_000, 500);
    m.campaign.active = false;
    let before = (m.campaign.clone(), m.link.clone(), m.escrow, m.buyer);
    assert_eq!(settle(&mut m, &STRANGER, &STRANGER), Err(AffiliateError::CampaignNotActive));
    assert_eq!((m.campaign.clone(), m.link.clone(), m.escrow, m.buyer), before);
}

#[test]
fn wrong_affiliate_rejected() {
    let mut m = market(1_000, 500);
    let before = (m.campaign.clone(), m.link.clone(), m.escrow, m.buyer);
    assert_eq!(settle(&mut m, &STRANGER, &STRANGER), Err(AffiliateError::InvalidInfluencer));
    assert_eq!((m.campaign.clone(), m.link.clone(), m.escrow, m.buyer), before);
}

#[test]
fn wrong_seller_rejected() {
    let mut m = market(1_000, 500);
    assert_eq!(settle(&mut m, &STRANGER, &AFFILIATE), Err(AffiliateError::InvalidAccountOwner));
    assert_eq!(m.escrow.amount, 1);
}

#[test]
fn wrong_mint_rejected() {
    let mut m = market(1_000, 500);
    m.buyer.mint = STRANGER;
    assert_eq!(settle(&mut m, &SELLER, &AFFILIATE), Err(AffiliateError::MintMismatch));
    assert_eq!(m.campaign.total_settlements, 0);
}

#[test]
fn tampered_authority_rejected() {
    let mut m = market(1_000, 500);
    m.campaign.escrow_bump = m.campaign.escrow_bump.wrapping_sub(1);
    assert_eq!(settle(&mut m, &SELLER, &AFFILIATE), Err(AffiliateError::DerivationExhausted));
    assert_eq!(m.escrow.amount, 1);
}

#[test]
fn rate_above_bound_in_record_rejected() {
    let mut m = market(1_000, 500);
    m.campaign.commission_rate = 20_000;
    assert_eq!(settle(&mut m, &SELLER, &AFFILIATE), Err(AffiliateError::CalculationError));
    assert_eq!(m.escrow.amount, 1);
}

#[test]
fn counter_overflow_rejected() {
    let mut m = market(1_000, 500);
    m.link.cumulative_earnings = u64::MAX - 10;
    assert_eq!(settle(&mut m, &SELLER, &AFFILIATE), Err(AffiliateError::CalculationError));
    assert_eq!(m.link.cumulative_earnings, u64::MAX - 10);
    m.link.cumulative_earnings = 0;
    m.campaign.total_settlements = u64::MAX;
    assert_eq!(settle(&mut m, &SELLER, &AFFILIATE), Err(AffiliateError::CalculationError));
}

#[test]
fn derivation_is_deterministic() {
    assert_eq!(
        derive_escrow_authority(&CAMPAIGN_AT, &PROGRAM),
        derive_escrow_authority(&CAMPAIGN_AT, &PROGRAM)
    );
    assert_ne!(
        derive_escrow_authority(&CAMPAIGN_AT, &PROGRAM).unwrap().0,
        derive_escrow_authority(&STRANGER, &PROGRAM).unwrap().0
    );
}
