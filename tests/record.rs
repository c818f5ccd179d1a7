use affiliate_dapp::record::{
    decode_affiliate_link, decode_campaign, encode_affiliate_link, encode_campaign, LINK_RECORD_LEN,
};
use affiliate_dapp::state::{AffiliateLink, NFTCampaign};

const HEADER: [u8; 8] = [0xd1, 0x02, 0x33, 0x44, 0x55, 0x66, 0x77, 0x88];

fn sample_campaign() -> NFTCampaign {
    NFTCampaign {
        owner: [1u8; 32],
        asset_mint: [2u8; 32],
        escrow_authority: [3u8; 32],
        escrow_bump: 254,
        price: 1_000_000,
        commission_rate: 500,
        active: true,
        affiliate_count: 3,
        total_settlements: 1,
        name: b"launch".to_vec(),
        details: b"first edition".to_vec(),
        created_at: -2,
    }
}

fn sample_link() -> AffiliateLink {
    AffiliateLink {
        campaign: [5u8; 32],
        affiliate: [6u8; 32],
        settlement_count: 2,
        cumulative_earnings: 0x0102_0304_0506_0708,
        created_at: 1_700_000_000,
    }
}

#[test]
fn campaign_layout_is_exact() {
    let c = sample_campaign();
    let b = encode_campaign(&HEADER, &c);
    assert_eq!(b.len(), 148 + 6 + 13);
    assert_eq!(&b[0..8], &HEADER);
    assert_eq!(&b[8..40], &[1u8; 32]);
    assert_eq!(&b[40..72], &[2u8; 32]);
    assert_eq!(&b[72..104], &[3u8; 32]);
    assert_eq!(b[104], 254);
    assert_eq!(&b[105..113], &1_000_000u64.to_le_bytes());
    assert_eq!(&b[113..115], &[0xf4, 0x01]);
    assert_eq!(b[115], 1);
    assert_eq!(&b[116..124], &3u64.to_le_bytes());
    assert_eq!(&b[124..132], &1u64.to_le_bytes());
    assert_eq!(&b[132..136], &[6, 0, 0, 0]);
    assert_eq!(&b[136..142], b"launch");
    assert_eq!(&b[142..146], &[13, 0, 0, 0]);
    assert_eq!(&b[146..159], b"first edition");
    assert_eq!(&b[159..167], &[0xfe, 0xff, 0xff, 0xff, 0xff, 0xff, 0xff, 0xff]);
}

#[test]
fn campaign_round_trip_with_trailing_space() {
    let c = sample_campaign();
    let mut b = encode_campaign(&HEADER, &c);
    assert_eq!(decode_campaign(&HEADER, &b), Some(c.clone()));
    b.extend_from_slice(&[0u8; 40]);
    assert_eq!(decode_campaign(&HEADER, &b), Some(c));
}

#[test]
fn campaign_round_trip_at_text_bounds() {
    let mut c = sample_campaign();
    c.name = vec![b'n'; 32];
    c.details = vec![b'd'; 200];
    c.active = false;
    let b = encode_campaign(&HEADER, &c);
    assert_eq!(b.len(), 148 + 32 + 200);
    assert_eq!(decode_campaign(&HEADER, &b), Some(c));
}

#[test]
fn campaign_decode_rejects() {
    let c = sample_campaign();
    let b = encode_campaign(&HEADER, &c);
    let mut other = HEADER;
    other[0] = 0;
    assert_eq!(decode_campaign(&other, &b), None);
    assert_eq!(decode_campaign(&HEADER, &b[..b.len() - 1]), None);
    assert_eq!(decode_campaign(&HEADER, &b[..100]), None);
    let mut bad_flag = b.clone();
    bad_flag[115] = 2;
    assert_eq!(decode_campaign(&HEADER, &bad_flag), None);
    let mut long_name = b.clone();
    long_name[132] = 33;
    long_name.extend_from_slice(&[0u8; 64]);
    assert_eq!(decode_campaign(&HEADER, &long_name), None);
}

#[test]
fn link_layout_is_exact() {
    let l = sample_link();
    let b = encode_affiliate_link(&HEADER, &l);
    assert_eq!(b.len(), LINK_RECORD_LEN);
    assert_eq!(&b[0..8], &HEADER);
    assert_eq!(&b[8..40], &[5u8; 32]);
    assert_eq!(&b[40..72], &[6u8; 32]);
    assert_eq!(&b[72..80], &[2, 0, 0, 0, 0, 0, 0, 0]);
    assert_eq!(&b[80..88], &[8, 7, 6, 5, 4, 3, 2, 1]);
    assert_eq!(&b[88..96], &1_700_000_000i64.to_le_bytes());
}

#[test]
fn link_round_trip_and_rejects() {
    let l = sample_link();
    let mut b = encode_affiliate_link(&HEADER, &l);
    assert_eq!(decode_affiliate_link(&HEADER, &b), Some(l.clone()));
    assert_eq!(decode_affiliate_link(&HEADER, &b[..95]), None);
    assert_eq!(decode_affiliate_link(&[0u8; 8], &b), None);
    b.push(9);
    assert_eq!(decode_affiliate_link(&HEADER, &b), Some(l));
}
