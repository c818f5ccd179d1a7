use vstd::prelude::*;

use crate::address::{address_bytes, same_address, Address};
use crate::error::AffiliateError;

verus! {

/// The address that solana-program's `create_program_address` gives for these
/// seeds and program, or `None` where it returns an error.
pub uninterp spec fn program_address(seeds: Seq<Seq<u8>>, program: Seq<u8>) -> Option<Seq<u8>>;

/// The address and bump seed that solana-program's `try_find_program_address`
/// finds for these seeds and program, or `None` where it finds none.
pub uninterp spec fn bump_search(seeds: Seq<Seq<u8>>, program: Seq<u8>) -> Option<(Seq<u8>, u8)>;

/// The seeds as byte sequences.
pub open spec fn seeds_view(seeds: Seq<Vec<u8>>) -> Seq<Seq<u8>> {
    seeds.map_values(|s: Vec<u8>| s@)
}

/// An optional identity as an optional byte sequence.
pub open spec fn address_view(a: Option<Address>) -> Option<Seq<u8>> {
    match a {
        Some(x) => Some(x@),
        None => None,
    }
}

/// An optional identity and bump seed, with the identity as a byte sequence.
pub open spec fn found_view(f: Option<(Address, u8)>) -> Option<(Seq<u8>, u8)> {
    match f {
        Some((x, b)) => Some((x@, b)),
        None => None,
    }
}

/// Relies on `Pubkey::create_program_address` of solana-program: the derived
/// address for the seeds, or an error.
#[verifier::external_body]
fn create_address(seeds: &Vec<Vec<u8>>, program_id: &Address) -> (r: Option<Address>)
    ensures
        address_view(r) == program_address(seeds_view(seeds@), program_id@),
{
    let parts: Vec<&[u8]> = seeds.iter().map(|s| s.as_slice()).collect();
    let program = anchor_lang::solana_program::pubkey::Pubkey::new_from_array(*program_id);
    match anchor_lang::solana_program::pubkey::Pubkey::create_program_address(&parts, &program) {
        Ok(address) => Some(address.to_bytes()),
        Err(_) => None,
    }
}

/// Relies on `Pubkey::try_find_program_address` of solana-program: it tries
/// bump seeds from 255 down and returns the first address that
/// `create_program_address` gives for the seeds with the bump appended.
#[verifier::external_body]
fn find_address(seeds: &Vec<Vec<u8>>, program_id: &Address) -> (r: Option<(Address, u8)>)
    ensures
        found_view(r) == bump_search(seeds_view(seeds@), program_id@),
        r matches Some((a, b)) ==> program_address(seeds_view(seeds@).push(seq![b]), program_id@)
            == Some(a@),
{
    let parts: Vec<&[u8]> = seeds.iter().map(|s| s.as_slice()).collect();
    let program = anchor_lang::solana_program::pubkey::Pubkey::new_from_array(*program_id);
    match anchor_lang::solana_program::pubkey::Pubkey::try_find_program_address(&parts, &program) {
        Some((address, bump)) => Some((address.to_bytes(), bump)),
        None => None,
    }
}

/// The tag that starts the seeds of a campaign's escrow authority.
pub open spec fn escrow_tag() -> Seq<u8> {
    seq![110u8, 102u8, 116u8, 95u8, 101u8, 115u8, 99u8, 114u8, 111u8, 119u8]
}

/// The tag that starts the seeds of a campaign record's address.
pub open spec fn campaign_tag() -> Seq<u8> {
    seq![110u8, 102u8, 116u8, 95u8, 99u8, 97u8, 109u8, 112u8, 97u8, 105u8, 103u8, 110u8]
}

/// The tag that starts the seeds of an affiliate link record's address.
pub open spec fn link_tag() -> Seq<u8> {
    seq![
        97u8, 102u8, 102u8, 105u8, 108u8, 105u8, 97u8, 116u8, 101u8, 95u8, 108u8, 105u8, 110u8,
        107u8,
    ]
}

/// Seeds of the custody authority of the campaign at `campaign`.
pub open spec fn escrow_seeds(campaign: Seq<u8>) -> Seq<Seq<u8>> {
    seq![escrow_tag(), campaign]
}

/// Seeds of the campaign record named `name`.
pub open spec fn campaign_seeds(name: Seq<u8>) -> Seq<Seq<u8>> {
    seq![campaign_tag(), name]
}

/// Seeds of the link record of `affiliate` on the campaign named `name`.
pub open spec fn link_seeds(affiliate: Seq<u8>, name: Seq<u8>) -> Seq<Seq<u8>> {
    seq![link_tag(), affiliate, name]
}

/// Whether `authority` is what the escrow seeds of `campaign` with `bump`
/// appended derive.
pub open spec fn authority_rederives(
    campaign: Seq<u8>,
    bump: u8,
    authority: Seq<u8>,
    program: Seq<u8>,
) -> bool {
    program_address(escrow_seeds(campaign).push(seq![bump]), program) == Some(authority)
}

fn escrow_tag_bytes() -> (r: Vec<u8>)
    ensures
        r@ == escrow_tag(),
{
    let r = vec![110u8, 102u8, 116u8, 95u8, 101u8, 115u8, 99u8, 114u8, 111u8, 119u8];
    assert(r@ =~= escrow_tag());
    r
}

fn campaign_tag_bytes() -> (r: Vec<u8>)
    ensures
        r@ == campaign_tag(),
{
    let r = vec![110u8, 102u8, 116u8, 95u8, 99u8, 97u8, 109u8, 112u8, 97u8, 105u8, 103u8, 110u8];
    assert(r@ =~= campaign_tag());
    r
}

fn link_tag_bytes() -> (r: Vec<u8>)
    ensures
        r@ == link_tag(),
{
    let r = vec![
        97u8, 102u8, 102u8, 105u8, 108u8, 105u8, 97u8, 116u8, 101u8, 95u8, 108u8, 105u8, 110u8,
        107u8,
    ];
    assert(r@ =~= link_tag());
    r
}

fn escrow_seed_list(campaign: &Address) -> (r: Vec<Vec<u8>>)
    ensures
        seeds_view(r@) == escrow_seeds(campaign@),
{
    let mut r: Vec<Vec<u8>> = Vec::new();
    r.push(escrow_tag_bytes());
    r.push(address_bytes(campaign));
    assert(seeds_view(r@) =~= escrow_seeds(campaign@));
    r
}

fn found_or_exhausted(f: Option<(Address, u8)>) -> (r: Result<(Address, u8), AffiliateError>)
    ensures
        match f {
            Some(x) => r == Ok::<(Address, u8), AffiliateError>(x),
            None => r == Err::<(Address, u8), AffiliateError>(AffiliateError::DerivationExhausted),
        },
{
    match f {
        Some(x) => Ok(x),
        None => Err(AffiliateError::DerivationExhausted),
    }
}

/// Derives the custody authority of the campaign whose record is at
/// `campaign`, and the bump seed that re-derives it.
pub fn derive_escrow_authority(campaign: &Address, program_id: &Address) -> (r: Result<
    (Address, u8),
    AffiliateError,
>)
    ensures
        match bump_search(escrow_seeds(campaign@), program_id@) {
            Some((a, b)) => r matches Ok((x, y)) && x@ == a && y == b,
            None => r == Err::<(Address, u8), AffiliateError>(AffiliateError::DerivationExhausted),
        },
        r matches Ok((a, b)) ==> authority_rederives(campaign@, b, a@, program_id@),
{
    let seeds = escrow_seed_list(campaign);
    let found = find_address(&seeds, program_id);
    found_or_exhausted(found)
}

/// Whether the stored `authority` and `bump` of the campaign at `campaign`
/// still derive one another.
pub fn check_escrow_authority(
    campaign: &Address,
    bump: u8,
    authority: &Address,
    program_id: &Address,
) -> (r: bool)
    ensures
        r == authority_rederives(campaign@, bump, authority@, program_id@),
{
    let mut seeds = escrow_seed_list(campaign);
    let mut bump_seed: Vec<u8> = Vec::new();
    bump_seed.push(bump);
    seeds.push(bump_seed);
    assert(seeds_view(seeds@) =~= escrow_seeds(campaign@).push(seq![bump]));
    match create_address(&seeds, program_id) {
        Some(a) => same_address(&a, authority),
        None => false,
    }
}

/// The address of the campaign record named `name`, and its bump seed.
pub fn campaign_address(name: &Vec<u8>, program_id: &Address) -> (r: Result<
    (Address, u8),
    AffiliateError,
>)
    ensures
        match bump_search(campaign_seeds(name@), program_id@) {
            Some((a, b)) => r matches Ok((x, y)) && x@ == a && y == b,
            None => r == Err::<(Address, u8), AffiliateError>(AffiliateError::DerivationExhausted),
        },
{
    let mut seeds: Vec<Vec<u8>> = Vec::new();
    seeds.push(campaign_tag_bytes());
    seeds.push(name.clone());
    assert(seeds_view(seeds@) =~= campaign_seeds(name@));
    found_or_exhausted(find_address(&seeds, program_id))
}

/// The address of the link record of `affiliate` on the campaign named
/// `campaign_name`, and its bump seed.
pub fn affiliate_link_address(
    affiliate: &Address,
    campaign_name: &Vec<u8>,
    program_id: &Address,
) -> (r: Result<(Address, u8), AffiliateError>)
    ensures
        match bump_search(link_seeds(affiliate@, campaign_name@), program_id@) {
            Some((a, b)) => r matches Ok((x, y)) && x@ == a && y == b,
            None => r == Err::<(Address, u8), AffiliateError>(AffiliateError::DerivationExhausted),
        },
{
    let mut seeds: Vec<Vec<u8>> = Vec::new();
    seeds.push(link_tag_bytes());
    seeds.push(address_bytes(affiliate));
    seeds.push(campaign_name.clone());
    assert(seeds_view(seeds@) =~= link_seeds(affiliate@, campaign_name@));
    found_or_exhausted(find_address(&seeds, program_id))
}

} // verus!
