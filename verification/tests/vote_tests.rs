use shift_sc::account_id::AccountId;
use shift_sc::campaign::{create_campaign, Campaign};
use shift_sc::errors::VoteError;
use shift_sc::vote::{cast_vote, check_vote, phase, CampaignPhase, TokenHolding};

fn mk_id(b: u8) -> AccountId {
    AccountId::from_bytes(vec![b; 32]).unwrap()
}

fn campaign() -> Campaign {
    create_campaign(
        mk_id(1),
        b"poll".to_vec(),
        vec![b"A".to_vec(), b"B".to_vec()],
        100,
        200,
        mk_id(2),
    )
    .unwrap()
}

fn holding(units: u64) -> TokenHolding {
    TokenHolding { token_id: mk_id(2), amount: units }
}

#[test]
fn scenario_window_then_vote_then_exhausted() {
    let mut c = campaign();
    let mut h = holding(1);

    let early = cast_vote(&mut c, &mut h, 1, 50);
    assert_eq!(early.unwrap_err(), VoteError::CampaignNotStarted);
    assert_eq!(c.votes, vec![0u64, 0u64]);
    assert_eq!(h.amount, 1);

    let ok = cast_vote(&mut c, &mut h, 1, 150);
    assert!(ok.is_ok());
    assert_eq!(c.votes, vec![0u64, 1u64]);
    assert_eq!(c.total_votes, 1);
    assert_eq!(h.amount, 0);

    let again = cast_vote(&mut c, &mut h, 1, 150);
    assert_eq!(again.unwrap_err(), VoteError::InsufficientTokens);
    assert_eq!(c.votes, vec![0u64, 1u64]);
    assert_eq!(c.total_votes, 1);
}

#[test]
fn vote_after_end_fails() {
    let mut c = campaign();
    let mut h = holding(1);
    let r = cast_vote(&mut c, &mut h, 0, 201);
    assert_eq!(r.unwrap_err(), VoteError::CampaignEnded);
    assert_eq!(c.votes, vec![0u64, 0u64]);
    assert_eq!(c.total_votes, 0);
    assert_eq!(h.amount, 1);
}

#[test]
fn vote_at_window_edges_succeeds() {
    let mut c = campaign();
    let mut h = holding(2);
    assert!(cast_vote(&mut c, &mut h, 0, 100).is_ok());
    assert!(cast_vote(&mut c, &mut h, 0, 200).is_ok());
    assert_eq!(c.votes, vec![2u64, 0u64]);
}

#[test]
fn option_index_at_len_fails() {
    let mut c = campaign();
    let mut h = holding(1);
    let r = cast_vote(&mut c, &mut h, 2, 150);
    assert_eq!(r.unwrap_err(), VoteError::InvalidOption);
    assert_eq!(c.votes, vec![0u64, 0u64]);
    assert_eq!(c.total_votes, 0);
    assert_eq!(h.amount, 1);
}

#[test]
fn wrong_token_type_fails() {
    let mut c = campaign();
    let mut h = TokenHolding { token_id: mk_id(9), amount: 5 };
    let r = cast_vote(&mut c, &mut h, 0, 150);
    assert_eq!(r.unwrap_err(), VoteError::InvalidTokenMint);
    assert_eq!(c.total_votes, 0);
    assert_eq!(h.amount, 5);
}

#[test]
fn empty_holding_fails() {
    let mut c = campaign();
    let mut h = holding(0);
    let r = cast_vote(&mut c, &mut h, 0, 150);
    assert_eq!(r.unwrap_err(), VoteError::InsufficientTokens);
    assert_eq!(c.total_votes, 0);
}

#[test]
fn total_always_equals_sum_of_tallies() {
    let mut c = campaign();
    let mut h = holding(5);
    let mut successes: u64 = 0;
    for (idx, now) in [(0u8, 150i64), (1, 150), (50, 150), (1, 99), (0, 160), (1, 170)] {
        let r = cast_vote(&mut c, &mut h, idx, now);
        if r.is_ok() {
            successes += 1;
        }
        assert_eq!(c.total_votes, c.votes.iter().sum::<u64>());
    }
    assert_eq!(successes, 4);
    assert_eq!(h.amount, 1);
    assert_eq!(c.total_votes, 4);
    assert_eq!(c.votes, vec![2u64, 2u64]);
}

#[test]
fn check_vote_orders_failures() {
    let c = campaign();
    // out of window and wrong everything: the time check speaks first
    let r = check_vote(&c, &mk_id(9), 0, 7, 20);
    assert_eq!(r.unwrap_err(), VoteError::CampaignNotStarted);
    // in window, bad option and bad mint: the option check speaks first
    let r = check_vote(&c, &mk_id(9), 0, 7, 150);
    assert_eq!(r.unwrap_err(), VoteError::InvalidOption);
    // in window, good option, bad mint and empty holding: mint speaks first
    let r = check_vote(&c, &mk_id(9), 0, 0, 150);
    assert_eq!(r.unwrap_err(), VoteError::InvalidTokenMint);
}

#[test]
fn phase_follows_the_window() {
    let c = campaign();
    assert_eq!(phase(&c, 99), CampaignPhase::Created);
    assert_eq!(phase(&c, 100), CampaignPhase::Active);
    assert_eq!(phase(&c, 200), CampaignPhase::Active);
    assert_eq!(phase(&c, 201), CampaignPhase::Closed);
}
