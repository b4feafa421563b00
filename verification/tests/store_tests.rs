use shift_sc::account_id::AccountId;
use shift_sc::errors::VoteError;
use shift_sc::store::{CampaignStore, CreateError};
use shift_sc::vote::TokenHolding;

fn mk_id(b: u8) -> AccountId {
    AccountId::from_bytes(vec![b; 32]).unwrap()
}

fn two_options() -> Vec<Vec<u8>> {
    vec![b"A".to_vec(), b"B".to_vec()]
}

fn store() -> CampaignStore {
    CampaignStore::new(mk_id(7))
}

#[test]
fn duplicate_creation_fails() {
    let mut s = store();
    let first = s.create_campaign(mk_id(1), b"poll".to_vec(), two_options(), 100, 200, mk_id(2));
    assert_eq!(first.unwrap(), 0);
    assert_eq!(s.len(), 1);
    let second = s.create_campaign(
        mk_id(1),
        b"poll".to_vec(),
        vec![b"X".to_vec(), b"Y".to_vec(), b"Z".to_vec()],
        0,
        1,
        mk_id(3),
    );
    assert_eq!(second.unwrap_err(), CreateError::AlreadyExists);
    assert_eq!(s.len(), 1);
    // the surviving record is the first one, untouched
    assert_eq!(s.campaign(0).options, two_options());
    assert_eq!(s.campaign(0).start_time, 100);
}

#[test]
fn distinct_titles_live_at_distinct_addresses() {
    let mut s = store();
    let a = s.create_campaign(mk_id(1), b"first".to_vec(), two_options(), 100, 200, mk_id(2));
    let b = s.create_campaign(mk_id(1), b"second".to_vec(), two_options(), 100, 200, mk_id(2));
    assert_eq!(a.unwrap(), 0);
    assert_eq!(b.unwrap(), 1);
    assert_eq!(s.len(), 2);
}

#[test]
fn distinct_creators_may_share_a_title() {
    let mut s = store();
    let a = s.create_campaign(mk_id(1), b"poll".to_vec(), two_options(), 100, 200, mk_id(2));
    let b = s.create_campaign(mk_id(9), b"poll".to_vec(), two_options(), 100, 200, mk_id(2));
    assert_eq!(a.unwrap(), 0);
    assert_eq!(b.unwrap(), 1);
}

#[test]
fn find_campaign_by_identity() {
    let mut s = store();
    s.create_campaign(mk_id(1), b"first".to_vec(), two_options(), 100, 200, mk_id(2)).unwrap();
    s.create_campaign(mk_id(1), b"second".to_vec(), two_options(), 100, 200, mk_id(2)).unwrap();
    let found = s.find_campaign(&mk_id(1), &b"second".to_vec());
    assert_eq!(found, Some(1));
    assert_eq!(s.campaign(1).title, b"second".to_vec());
    assert_eq!(s.find_campaign(&mk_id(1), &b"absent".to_vec()), None);
    assert_eq!(s.find_campaign(&mk_id(3), &b"first".to_vec()), None);
}

#[test]
fn over_long_title_cannot_be_addressed() {
    // program-derived addresses admit seeds of at most 32 bytes, so a
    // 40-byte title has no address even though it fits the record
    let mut s = store();
    let r = s.create_campaign(mk_id(1), vec![b't'; 40], two_options(), 100, 200, mk_id(2));
    assert_eq!(r.unwrap_err(), CreateError::AddressUnavailable);
    assert_eq!(s.len(), 0);
}

#[test]
fn oversized_requests_are_refused() {
    let mut s = store();
    let eleven: Vec<Vec<u8>> = (0u8..11).map(|i| vec![i]).collect();
    let r = s.create_campaign(mk_id(1), b"poll".to_vec(), eleven, 100, 200, mk_id(2));
    assert_eq!(r.unwrap_err(), CreateError::RecordTooLarge);
    let long_label = vec![vec![b'x'; 33], vec![b'y'; 1]];
    let r = s.create_campaign(mk_id(1), b"poll".to_vec(), long_label, 100, 200, mk_id(2));
    assert_eq!(r.unwrap_err(), CreateError::RecordTooLarge);
    assert_eq!(s.len(), 0);
}

#[test]
fn invalid_requests_are_rejected() {
    let mut s = store();
    let r = s.create_campaign(mk_id(1), b"poll".to_vec(), vec![b"A".to_vec()], 100, 200, mk_id(2));
    assert_eq!(r.unwrap_err(), CreateError::Rejected(VoteError::InvalidOptions));
    let r = s.create_campaign(mk_id(1), b"poll".to_vec(), two_options(), 200, 100, mk_id(2));
    assert_eq!(r.unwrap_err(), CreateError::Rejected(VoteError::InvalidTimestamps));
    assert_eq!(s.len(), 0);
}

#[test]
fn voting_through_the_store() {
    let mut s = store();
    let idx = s
        .create_campaign(mk_id(1), b"poll".to_vec(), two_options(), 100, 200, mk_id(2))
        .unwrap();
    let mut h = TokenHolding { token_id: mk_id(2), amount: 1 };
    let r = s.cast_vote(idx, &mut h, 1, 150);
    assert!(r.is_ok());
    assert_eq!(s.campaign(idx).votes, vec![0u64, 1u64]);
    assert_eq!(s.campaign(idx).total_votes, 1);
    assert_eq!(h.amount, 0);
    let r = s.cast_vote(idx, &mut h, 1, 150);
    assert_eq!(r.unwrap_err(), VoteError::InsufficientTokens);
    assert_eq!(s.campaign(idx).total_votes, 1);
}
