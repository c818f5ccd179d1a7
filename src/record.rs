use vstd::bytes::{
    lemma_auto_spec_u16_to_from_le_bytes, lemma_auto_spec_u32_to_from_le_bytes,
    lemma_auto_spec_u64_to_from_le_bytes, spec_u16_from_le_bytes, spec_u16_to_le_bytes,
    spec_u32_from_le_bytes, spec_u32_to_le_bytes, spec_u64_from_le_bytes, spec_u64_to_le_bytes,
    u16_from_le_bytes, u16_to_le_bytes, u32_from_le_bytes, u32_to_le_bytes, u64_from_le_bytes,
    u64_to_le_bytes,
};
use vstd::prelude::*;
use vstd::slice::slice_subrange;

use crate::address::Address;
use crate::state::{AffiliateLink, NFTCampaign, MAX_DETAILS_LEN, MAX_NAME_LEN};

verus! {

/// Length of the record-kind header that precedes the fields of a stored
/// record. Its content belongs to the storage layer and is carried as given.
pub const RECORD_HEADER_LEN: usize = 8;

/// Length of a stored affiliate link, header included.
pub const LINK_RECORD_LEN: usize = 96;

/// A campaign as plain values.
pub struct CampaignView {
    pub owner: Seq<u8>,
    pub asset_mint: Seq<u8>,
    pub escrow_authority: Seq<u8>,
    pub escrow_bump: u8,
    pub price: u64,
    pub commission_rate: u16,
    pub active: bool,
    pub affiliate_count: u64,
    pub total_settlements: u64,
    pub name: Seq<u8>,
    pub details: Seq<u8>,
    pub created_at: i64,
}

/// An affiliate link as plain values.
pub struct LinkView {
    pub campaign: Seq<u8>,
    pub affiliate: Seq<u8>,
    pub settlement_count: u64,
    pub cumulative_earnings: u64,
    pub created_at: i64,
}

impl View for NFTCampaign {
    type V = CampaignView;

    open spec fn view(&self) -> CampaignView {
        CampaignView {
            owner: self.owner@,
            asset_mint: self.asset_mint@,
            escrow_authority: self.escrow_authority@,
            escrow_bump: self.escrow_bump,
            price: self.price,
            commission_rate: self.commission_rate,
            active: self.active,
            affiliate_count: self.affiliate_count,
            total_settlements: self.total_settlements,
            name: self.name@,
            details: self.details@,
            created_at: self.created_at,
        }
    }
}

impl View for AffiliateLink {
    type V = LinkView;

    open spec fn view(&self) -> LinkView {
        LinkView {
            campaign: self.campaign@,
            affiliate: self.affiliate@,
            settlement_count: self.settlement_count,
            cumulative_earnings: self.cumulative_earnings,
            created_at: self.created_at,
        }
    }
}

/// Whether a campaign's values fit its stored layout: identities of 32
/// bytes and texts within their bounds.
pub open spec fn campaign_fits(v: CampaignView) -> bool {
    &&& v.owner.len() == 32
    &&& v.asset_mint.len() == 32
    &&& v.escrow_authority.len() == 32
    &&& v.name.len() <= MAX_NAME_LEN
    &&& v.details.len() <= MAX_DETAILS_LEN
}

/// Whether a link's identities are 32 bytes long.
pub open spec fn link_fits(v: LinkView) -> bool {
    v.campaign.len() == 32 && v.affiliate.len() == 32
}

/// A flag as stored: 1 for true, 0 for false.
pub open spec fn flag_byte(b: bool) -> u8 {
    if b {
        1u8
    } else {
        0u8
    }
}

/// A text as stored: its length as four little-endian bytes, then its bytes.
pub open spec fn text_bytes(t: Seq<u8>) -> Seq<u8> {
    spec_u32_to_le_bytes(t.len() as u32) + t
}

/// The stored form of a campaign: the header, then each field in order,
/// integers in little-endian order.
pub open spec fn campaign_record(header: Seq<u8>, v: CampaignView) -> Seq<u8> {
    header + v.owner + v.asset_mint + v.escrow_authority + seq![v.escrow_bump]
        + spec_u64_to_le_bytes(v.price) + spec_u16_to_le_bytes(v.commission_rate) + seq![
        flag_byte(v.active),
    ] + spec_u64_to_le_bytes(v.affiliate_count) + spec_u64_to_le_bytes(v.total_settlements)
        + text_bytes(v.name) + text_bytes(v.details) + spec_u64_to_le_bytes(v.created_at as u64)
}

/// The stored form of an affiliate link.
pub open spec fn link_record(header: Seq<u8>, v: LinkView) -> Seq<u8> {
    header + v.campaign + v.affiliate + spec_u64_to_le_bytes(v.settlement_count)
        + spec_u64_to_le_bytes(v.cumulative_earnings) + spec_u64_to_le_bytes(v.created_at as u64)
}

/// The campaign that `b` starts with after `header`, if it holds one: the
/// texts within their bounds and the flag byte 0 or 1.
pub open spec fn parse_campaign(header: Seq<u8>, b: Seq<u8>) -> Option<CampaignView> {
    if b.len() < 136 || b.subrange(0, 8) != header || b[115] > 1 {
        None
    } else {
        let n = spec_u32_from_le_bytes(b.subrange(132, 136)) as int;
        if n > MAX_NAME_LEN || b.len() < 140 + n {
            None
        } else {
            let d = spec_u32_from_le_bytes(b.subrange(136 + n, 140 + n)) as int;
            if d > MAX_DETAILS_LEN || b.len() < 148 + n + d {
                None
            } else {
                Some(
                    CampaignView {
                        owner: b.subrange(8, 40),
                        asset_mint: b.subrange(40, 72),
                        escrow_authority: b.subrange(72, 104),
                        escrow_bump: b[104],
                        price: spec_u64_from_le_bytes(b.subrange(105, 113)),
                        commission_rate: spec_u16_from_le_bytes(b.subrange(113, 115)),
                        active: b[115] == 1,
                        affiliate_count: spec_u64_from_le_bytes(b.subrange(116, 124)),
                        total_settlements: spec_u64_from_le_bytes(b.subrange(124, 132)),
                        name: b.subrange(136, 136 + n),
                        details: b.subrange(140 + n, 140 + n + d),
                        created_at: spec_u64_from_le_bytes(
                            b.subrange(140 + n + d, 148 + n + d),
                        ) as i64,
                    },
                )
            }
        }
    }
}

/// The affiliate link that `b` starts with after `header`, if it holds one.
pub open spec fn parse_link(header: Seq<u8>, b: Seq<u8>) -> Option<LinkView> {
    if b.len() < LINK_RECORD_LEN || b.subrange(0, 8) != header {
        None
    } else {
        Some(
            LinkView {
                campaign: b.subrange(8, 40),
                affiliate: b.subrange(40, 72),
                settlement_count: spec_u64_from_le_bytes(b.subrange(72, 80)),
                cumulative_earnings: spec_u64_from_le_bytes(b.subrange(80, 88)),
                created_at: spec_u64_from_le_bytes(b.subrange(88, 96)) as i64,
            },
        )
    }
}

fn push_bytes(out: &mut Vec<u8>, s: &[u8])
    ensures
        final(out)@ == old(out)@ + s@,
{
    let mut i: usize = 0;
    while i < s.len()
        invariant
            i <= s@.len(),
            out@ == old(out)@ + s@.subrange(0, i as int),
        decreases s@.len() - i,
    {
        out.push(s[i]);
        i = i + 1;
        assert(out@ =~= old(out)@ + s@.subrange(0, i as int));
    }
    assert(s@.subrange(0, s@.len() as int) =~= s@);
}

fn read_address(b: &[u8], pos: usize) -> (r: Address)
    requires
        pos + 32 <= b@.len(),
    ensures
        r@ == b@.subrange(pos as int, pos + 32),
{
    let len: usize = b.len();
    let mut r: Address = [0u8; 32];
    let mut i: usize = 0;
    while i < 32
        invariant
            i <= 32,
            pos + 32 <= b@.len(),
            len == b@.len(),
            r@.len() == 32,
            forall|j: int| 0 <= j < i ==> r@[j] == b@[pos + j],
        decreases 32 - i,
    {
        r[i] = b[pos + i];
        i = i + 1;
    }
    assert(r@ =~= b@.subrange(pos as int, pos + 32));
    r
}

fn read_bytes(b: &[u8], pos: usize, n: usize) -> (r: Vec<u8>)
    requires
        pos + n <= b@.len(),
    ensures
        r@ == b@.subrange(pos as int, pos + n),
{
    let len: usize = b.len();
    let mut r: Vec<u8> = Vec::new();
    push_bytes(&mut r, slice_subrange(b, pos, pos + n));
    assert(r@ =~= b@.subrange(pos as int, pos + n));
    r
}

fn push_text(out: &mut Vec<u8>, t: &Vec<u8>)
    requires
        t@.len() <= u32::MAX,
    ensures
        final(out)@ == old(out)@ + text_bytes(t@),
{
    let len = u32_to_le_bytes(t.len() as u32);
    push_bytes(out, len.as_slice());
    push_bytes(out, t.as_slice());
    assert(final(out)@ =~= old(out)@ + text_bytes(t@));
}

/// The stored form of `campaign` under the record-kind `header`.
pub fn encode_campaign(header: &[u8; 8], campaign: &NFTCampaign) -> (r: Vec<u8>)
    requires
        campaign.name@.len() <= MAX_NAME_LEN,
        campaign.details@.len() <= MAX_DETAILS_LEN,
    ensures
        r@ == campaign_record(header@, campaign@),
{
    let mut out: Vec<u8> = Vec::new();
    push_bytes(&mut out, header.as_slice());
    push_bytes(&mut out, campaign.owner.as_slice());
    push_bytes(&mut out, campaign.asset_mint.as_slice());
    push_bytes(&mut out, campaign.escrow_authority.as_slice());
    out.push(campaign.escrow_bump);
    push_bytes(&mut out, u64_to_le_bytes(campaign.price).as_slice());
    push_bytes(&mut out, u16_to_le_bytes(campaign.commission_rate).as_slice());
    out.push(if campaign.active { 1u8 } else { 0u8 });
    push_bytes(&mut out, u64_to_le_bytes(campaign.affiliate_count).as_slice());
    push_bytes(&mut out, u64_to_le_bytes(campaign.total_settlements).as_slice());
    push_text(&mut out, &campaign.name);
    push_text(&mut out, &campaign.details);
    push_bytes(&mut out, u64_to_le_bytes(campaign.created_at as u64).as_slice());
    assert(out@ =~= campaign_record(header@, campaign@));
    out
}

/// The stored form of `link` under the record-kind `header`.
pub fn encode_affiliate_link(header: &[u8; 8], link: &AffiliateLink) -> (r: Vec<u8>)
    ensures
        r@ == link_record(header@, link@),
{
    let mut out: Vec<u8> = Vec::new();
    push_bytes(&mut out, header.as_slice());
    push_bytes(&mut out, link.campaign.as_slice());
    push_bytes(&mut out, link.affiliate.as_slice());
    push_bytes(&mut out, u64_to_le_bytes(link.settlement_count).as_slice());
    push_bytes(&mut out, u64_to_le_bytes(link.cumulative_earnings).as_slice());
    push_bytes(&mut out, u64_to_le_bytes(link.created_at as u64).as_slice());
    assert(out@ =~= link_record(header@, link@));
    out
}

fn bytes_equal(a: &[u8], b: &[u8]) -> (r: bool)
    ensures
        r == (a@ == b@),
{
    if a.len() != b.len() {
        return false;
    }
    let mut i: usize = 0;
    while i < a.len()
        invariant
            i <= a@.len(),
            a@.len() == b@.len(),
            forall|j: int| 0 <= j < i ==> a@[j] == b@[j],
        decreases a@.len() - i,
    {
        if a[i] != b[i] {
            return false;
        }
        i = i + 1;
    }
    assert(a@ =~= b@);
    true
}

/// Reads a stored campaign from the start of `bytes`, under the record-kind
/// `header`. Bytes after the record are ignored.
pub fn decode_campaign(header: &[u8; 8], bytes: &[u8]) -> (r: Option<NFTCampaign>)
    ensures
        match parse_campaign(header@, bytes@) {
            Some(v) => r matches Some(c) && c@ == v,
            None => r is None,
        },
{
    let len: usize = bytes.len();
    if len < 136 {
        return None;
    }
    if !bytes_equal(slice_subrange(bytes, 0, 8), header.as_slice()) {
        return None;
    }
    if bytes[115] > 1 {
        return None;
    }
    let n: usize = u32_from_le_bytes(slice_subrange(bytes, 132, 136)) as usize;
    if n > MAX_NAME_LEN || len < 140 + n {
        return None;
    }
    let d: usize = u32_from_le_bytes(slice_subrange(bytes, 136 + n, 140 + n)) as usize;
    if d > MAX_DETAILS_LEN || len < 148 + n + d {
        return None;
    }
    let c = NFTCampaign {
        owner: read_address(bytes, 8),
        asset_mint: read_address(bytes, 40),
        escrow_authority: read_address(bytes, 72),
        escrow_bump: bytes[104],
        price: u64_from_le_bytes(slice_subrange(bytes, 105, 113)),
        commission_rate: u16_from_le_bytes(slice_subrange(bytes, 113, 115)),
        active: bytes[115] == 1,
        affiliate_count: u64_from_le_bytes(slice_subrange(bytes, 116, 124)),
        total_settlements: u64_from_le_bytes(slice_subrange(bytes, 124, 132)),
        name: read_bytes(bytes, 136, n),
        details: read_bytes(bytes, 140 + n, d),
        created_at: u64_from_le_bytes(slice_subrange(bytes, 140 + n + d, 148 + n + d)) as i64,
    };
    Some(c)
}

/// Reads a stored affiliate link from the start of `bytes`, under the
/// record-kind `header`. Bytes after the record are ignored.
pub fn decode_affiliate_link(header: &[u8; 8], bytes: &[u8]) -> (r: Option<AffiliateLink>)
    ensures
        match parse_link(header@, bytes@) {
            Some(v) => r matches Some(l) && l@ == v,
            None => r is None,
        },
{
    let len: usize = bytes.len();
    if len < LINK_RECORD_LEN {
        return None;
    }
    if !bytes_equal(slice_subrange(bytes, 0, 8), header.as_slice()) {
        return None;
    }
    Some(
        AffiliateLink {
            campaign: read_address(bytes, 8),
            affiliate: read_address(bytes, 40),
            settlement_count: u64_from_le_bytes(slice_subrange(bytes, 72, 80)),
            cumulative_earnings: u64_from_le_bytes(slice_subrange(bytes, 80, 88)),
            created_at: u64_from_le_bytes(slice_subrange(bytes, 88, 96)) as i64,
        },
    )
}

proof fn lemma_i64_bits(x: i64, y: u64)
    ensures
        (x as u64) as i64 == x,
        (y as i64) as u64 == y,
{
    assert((x as u64) as i64 == x) by (bit_vector);
    assert((y as i64) as u64 == y) by (bit_vector);
}

/// Reading back the stored form of a campaign gives the campaign, whatever
/// bytes follow it.
pub proof fn lemma_campaign_round_trip(header: Seq<u8>, v: CampaignView, rest: Seq<u8>)
    requires
        header.len() == RECORD_HEADER_LEN,
        campaign_fits(v),
    ensures
        parse_campaign(header, campaign_record(header, v) + rest) == Some(v),
{
    lemma_auto_spec_u16_to_from_le_bytes();
    lemma_auto_spec_u32_to_from_le_bytes();
    lemma_auto_spec_u64_to_from_le_bytes();
    lemma_i64_bits(v.created_at, 0);
    let n = v.name.len() as int;
    let d = v.details.len() as int;
    let b = campaign_record(header, v) + rest;
    assert(spec_u32_to_le_bytes(v.name.len() as u32).len() == 4);
    assert(spec_u32_to_le_bytes(v.details.len() as u32).len() == 4);
    assert(spec_u64_to_le_bytes(v.created_at as u64).len() == 8);
    assert(spec_u64_to_le_bytes(v.price).len() == 8);
    assert(spec_u16_to_le_bytes(v.commission_rate).len() == 2);
    assert(spec_u64_to_le_bytes(v.affiliate_count).len() == 8);
    assert(spec_u64_to_le_bytes(v.total_settlements).len() == 8);
    assert(campaign_record(header, v).len() == 148 + n + d);
    assert(b.subrange(0, 8) =~= header);
    assert(b.subrange(8, 40) =~= v.owner);
    assert(b.subrange(40, 72) =~= v.asset_mint);
    assert(b.subrange(72, 104) =~= v.escrow_authority);
    assert(b[104] == v.escrow_bump);
    assert(b.subrange(105, 113) =~= spec_u64_to_le_bytes(v.price));
    assert(b.subrange(113, 115) =~= spec_u16_to_le_bytes(v.commission_rate));
    assert(b[115] == flag_byte(v.active));
    assert(b.subrange(116, 124) =~= spec_u64_to_le_bytes(v.affiliate_count));
    assert(b.subrange(124, 132) =~= spec_u64_to_le_bytes(v.total_settlements));
    assert(b.subrange(132, 136) =~= spec_u32_to_le_bytes(v.name.len() as u32));
    assert(b.subrange(136, 136 + n) =~= v.name);
    assert(b.subrange(136 + n, 140 + n) =~= spec_u32_to_le_bytes(v.details.len() as u32));
    assert(b.subrange(140 + n, 140 + n + d) =~= v.details);
    assert(b.subrange(140 + n + d, 148 + n + d) =~= spec_u64_to_le_bytes(v.created_at as u64));
}

/// Whatever campaign is read from some bytes, under some header, fits its
/// layout, and its stored form is what the bytes start with.
pub proof fn lemma_parsed_campaign_is_stored(header: Seq<u8>, b: Seq<u8>)
    requires
        parse_campaign(header, b) is Some,
    ensures
        campaign_fits(parse_campaign(header, b)->Some_0),
        b.subrange(
            0,
            campaign_record(header, parse_campaign(header, b)->Some_0).len() as int,
        ) == campaign_record(header, parse_campaign(header, b)->Some_0),
{
    lemma_auto_spec_u16_to_from_le_bytes();
    lemma_auto_spec_u32_to_from_le_bytes();
    lemma_auto_spec_u64_to_from_le_bytes();
    let v = parse_campaign(header, b)->Some_0;
    let n = v.name.len() as int;
    let d = v.details.len() as int;
    lemma_i64_bits(0, spec_u64_from_le_bytes(b.subrange(140 + n + d, 148 + n + d)));
    assert(spec_u32_to_le_bytes(spec_u32_from_le_bytes(b.subrange(132, 136))) == b.subrange(132, 136));
    assert(spec_u32_to_le_bytes(spec_u32_from_le_bytes(b.subrange(136 + n, 140 + n))) == b.subrange(136 + n, 140 + n));
    assert(spec_u64_to_le_bytes(spec_u64_from_le_bytes(b.subrange(105, 113))) == b.subrange(105, 113));
    assert(spec_u16_to_le_bytes(spec_u16_from_le_bytes(b.subrange(113, 115))) == b.subrange(113, 115));
    assert(spec_u64_to_le_bytes(spec_u64_from_le_bytes(b.subrange(116, 124))) == b.subrange(116, 124));
    assert(spec_u64_to_le_bytes(spec_u64_from_le_bytes(b.subrange(124, 132))) == b.subrange(124, 132));
    assert(spec_u64_to_le_bytes(spec_u64_from_le_bytes(b.subrange(140 + n + d, 148 + n + d))) == b.subrange(140 + n + d, 148 + n + d));
    assert(flag_byte(v.active) == b[115]);
    assert(campaign_record(header, v).len() == 148 + n + d);
    assert(b.subrange(0, 148 + n + d) =~= campaign_record(header, v));
}

/// Reading back the stored form of an affiliate link gives the link, whatever
/// bytes follow it.
pub proof fn lemma_link_round_trip(header: Seq<u8>, v: LinkView, rest: Seq<u8>)
    requires
        header.len() == RECORD_HEADER_LEN,
        link_fits(v),
    ensures
        parse_link(header, link_record(header, v) + rest) == Some(v),
{
    lemma_auto_spec_u64_to_from_le_bytes();
    lemma_i64_bits(v.created_at, 0);
    let b = link_record(header, v) + rest;
    assert(spec_u64_to_le_bytes(v.settlement_count).len() == 8);
    assert(spec_u64_to_le_bytes(v.cumulative_earnings).len() == 8);
    assert(spec_u64_to_le_bytes(v.created_at as u64).len() == 8);
    assert(b.subrange(0, 8) =~= header);
    assert(b.subrange(8, 40) =~= v.campaign);
    assert(b.subrange(40, 72) =~= v.affiliate);
    assert(b.subrange(72, 80) =~= spec_u64_to_le_bytes(v.settlement_count));
    assert(b.subrange(80, 88) =~= spec_u64_to_le_bytes(v.cumulative_earnings));
    assert(b.subrange(88, 96) =~= spec_u64_to_le_bytes(v.created_at as u64));
}

/// Whatever link is read from some bytes, under some header, has 32-byte
/// identities, and its stored form is the first `LINK_RECORD_LEN` bytes.
pub proof fn lemma_parsed_link_is_stored(header: Seq<u8>, b: Seq<u8>)
    requires
        parse_link(header, b) is Some,
    ensures
        link_fits(parse_link(header, b)->Some_0),
        b.subrange(0, LINK_RECORD_LEN as int) == link_record(header, parse_link(header, b)->Some_0),
{
    lemma_auto_spec_u64_to_from_le_bytes();
    let v = parse_link(header, b)->Some_0;
    lemma_i64_bits(0, spec_u64_from_le_bytes(b.subrange(88, 96)));
    assert(spec_u64_to_le_bytes(spec_u64_from_le_bytes(b.subrange(72, 80))) == b.subrange(72, 80));
    assert(spec_u64_to_le_bytes(spec_u64_from_le_bytes(b.subrange(80, 88))) == b.subrange(80, 88));
    assert(spec_u64_to_le_bytes(spec_u64_from_le_bytes(b.subrange(88, 96))) == b.subrange(88, 96));
    assert(b.subrange(0, 96) =~= link_record(header, v));
}

} // verus!
