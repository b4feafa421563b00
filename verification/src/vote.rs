use vstd::prelude::*;
use crate::account_id::{AccountId, id_eq};
use crate::campaign::{Campaign, lemma_element_le_sum, lemma_sum_update, sum_votes};
use crate::errors::VoteError;
use vstd::pervasive::VecAdditionalExecFns;

verus! {

/// A voter's holding of one token type: which token it is, and how many
/// units the voter currently has.
#[derive(Debug)]
pub struct TokenHolding {
    /// The token type held.
    pub token_id: AccountId,
    /// Units currently held.
    pub amount: u64,
}

impl TokenHolding {
    pub open spec fn wf(self) -> bool {
        self.token_id.wf()
    }
}

/// The lifecycle phase of a campaign: never a stored field, purely the
/// clock compared against the immutable window.
#[derive(Clone, Copy, Debug, PartialEq, Eq, Structural)]
pub enum CampaignPhase {
    /// Before `start_time`.
    Created,
    /// Between `start_time` and `end_time`, inclusive.
    Active,
    /// After `end_time`.
    Closed,
}

/// The phase of campaign `c` at time `now`.
pub open spec fn spec_phase(c: Campaign, now: i64) -> CampaignPhase {
    if now < c.start_time {
        CampaignPhase::Created
    } else if now <= c.end_time {
        CampaignPhase::Active
    } else {
        CampaignPhase::Closed
    }
}

pub fn phase(c: &Campaign, now: i64) -> (r: CampaignPhase)
    ensures
        r == spec_phase(*c, now),
        (r == CampaignPhase::Active) <==> (c.start_time <= now <= c.end_time),
{
    if now < c.start_time {
        CampaignPhase::Created
    } else if now <= c.end_time {
        CampaignPhase::Active
    } else {
        CampaignPhase::Closed
    }
}

/// The decision of the sequential vote validation: the first check that
/// fails names the error, and a vote is allowed only when all pass.
pub open spec fn vote_decision(
    c: Campaign,
    token_id: Seq<u8>,
    amount: u64,
    option_index: u8,
    now: i64,
) -> Result<(), VoteError> {
    if now < c.start_time {
        Err(VoteError::CampaignNotStarted)
    } else if now > c.end_time {
        Err(VoteError::CampaignEnded)
    } else if c.options@.len() <= option_index as int {
        Err(VoteError::InvalidOption)
    } else if token_id != c.eligibility_token_id@ {
        Err(VoteError::InvalidTokenMint)
    } else if amount < 1 {
        Err(VoteError::InsufficientTokens)
    } else {
        Ok(())
    }
}

/// Validates a cast-vote request without touching any state.
///
/// This is the decision half of the vote transition: a caller that owns
/// the real token capability burns one unit only when this returns `Ok`,
/// and commits the tally with `commit_vote` only when the burn succeeded.
pub fn check_vote(
    c: &Campaign,
    token_id: &AccountId,
    amount: u64,
    option_index: u8,
    now: i64,
) -> (r: Result<(), VoteError>)
    ensures
        r == vote_decision(*c, token_id@, amount, option_index, now),
        r is Ok <==> c.start_time <= now <= c.end_time && (option_index as int)
            < c.options@.len() && token_id@ == c.eligibility_token_id@ && amount >= 1,
{
    if now < c.start_time {
        return Err(VoteError::CampaignNotStarted);
    }
    if now > c.end_time {
        return Err(VoteError::CampaignEnded);
    }
    if (option_index as usize) >= c.options.len() {
        return Err(VoteError::InvalidOption);
    }
    if !id_eq(token_id, &c.eligibility_token_id) {
        return Err(VoteError::InvalidTokenMint);
    }
    if amount < 1 {
        return Err(VoteError::InsufficientTokens);
    }
    Ok(())
}

/// Applies the tally half of a vote: one tally and the total each rise by
/// one, and nothing else changes.
pub fn commit_vote(c: &mut Campaign, option_index: u8)
    requires
        old(c).wf(),
        (option_index as int) < old(c).options@.len(),
        old(c).total_votes < u64::MAX,
    ensures
        final(c).wf(),
        final(c).votes@ == old(c).votes@.update(
            option_index as int,
            (old(c).votes@[option_index as int] + 1) as u64,
        ),
        final(c).total_votes == old(c).total_votes + 1,
        final(c).creator == old(c).creator,
        final(c).title == old(c).title,
        final(c).options == old(c).options,
        final(c).eligibility_token_id == old(c).eligibility_token_id,
        final(c).start_time == old(c).start_time,
        final(c).end_time == old(c).end_time,
{
    proof {
        lemma_element_le_sum(c.votes@, option_index as int);
    }
    let idx = option_index as usize;
    let cur = c.votes[idx];
    c.votes.set(idx, cur + 1);
    c.total_votes = c.total_votes + 1;
    proof {
        lemma_sum_update(
            old(c).votes@,
            option_index as int,
            (old(c).votes@[option_index as int] + 1) as u64,
        );
    }
}

/// How a successful vote changed the pair (campaign, holding): the chosen
/// tally and the total each rose by one, one token unit was destroyed, and
/// every other field stands as before.
pub open spec fn vote_applied(
    pre_c: Campaign,
    pre_h: TokenHolding,
    option_index: u8,
    post_c: Campaign,
    post_h: TokenHolding,
) -> bool {
    &&& post_c.votes@ == pre_c.votes@.update(
        option_index as int,
        (pre_c.votes@[option_index as int] + 1) as u64,
    )
    &&& post_c.total_votes == pre_c.total_votes + 1
    &&& post_c.creator == pre_c.creator
    &&& post_c.title == pre_c.title
    &&& post_c.options == pre_c.options
    &&& post_c.eligibility_token_id == pre_c.eligibility_token_id
    &&& post_c.start_time == pre_c.start_time
    &&& post_c.end_time == pre_c.end_time
    &&& post_h.token_id == pre_h.token_id
    &&& post_h.amount == pre_h.amount - 1
}

/// One successful vote transition: the validation allowed it, and its two
/// effects — one unit destroyed, one tally risen — were applied together.
pub open spec fn vote_step(
    pre_c: Campaign,
    pre_h: TokenHolding,
    option_index: u8,
    now: i64,
    post_c: Campaign,
    post_h: TokenHolding,
) -> bool {
    &&& vote_decision(pre_c, pre_h.token_id@, pre_h.amount, option_index, now) is Ok
    &&& vote_applied(pre_c, pre_h, option_index, post_c, post_h)
}

/// The whole vote transition against the model of the voter's holding:
/// validate, destroy one unit, and update the tallies, as one atomic unit.
/// On any failure both the campaign and the holding stand unchanged.
pub fn cast_vote(
    c: &mut Campaign,
    holding: &mut TokenHolding,
    option_index: u8,
    now: i64,
) -> (r: Result<(), VoteError>)
    requires
        old(c).wf(),
        old(holding).wf(),
        old(c).total_votes < u64::MAX,
    ensures
        final(c).wf(),
        final(holding).wf(),
        r is Ok <==> vote_decision(
            *old(c),
            old(holding).token_id@,
            old(holding).amount,
            option_index,
            now,
        ) is Ok,
        r matches Err(e) ==> Err::<(), VoteError>(e) == vote_decision(
            *old(c),
            old(holding).token_id@,
            old(holding).amount,
            option_index,
            now,
        ),
        r is Err ==> *final(c) == *old(c) && *final(holding) == *old(holding),
        r is Ok ==> vote_step(*old(c), *old(holding), option_index, now, *final(c), *final(holding)),
{
    let decision = check_vote(c, &holding.token_id, holding.amount, option_index, now);
    match decision {
        Err(e) => Err(e),
        Ok(()) => {
            holding.amount = holding.amount - 1;
            commit_vote(c, option_index);
            Ok(())
        },
    }
}

/// Law: a vote can succeed only while the campaign is active — before
/// `start_time` and after `end_time` the decision is always an error.
pub proof fn lemma_vote_only_when_active(
    c: Campaign,
    token_id: Seq<u8>,
    amount: u64,
    option_index: u8,
    now: i64,
)
    requires
        vote_decision(c, token_id, amount, option_index, now) is Ok,
    ensures
        spec_phase(c, now) == CampaignPhase::Active,
{
}

/// Law: the tally invariant survives every vote.  A successful transition
/// from a well-formed campaign yields a well-formed campaign again; in
/// particular `total_votes` still equals the sum of the tallies, not just
/// eventually but after each single transition.
pub proof fn lemma_vote_step_preserves_wf(
    pre_c: Campaign,
    pre_h: TokenHolding,
    option_index: u8,
    now: i64,
    post_c: Campaign,
    post_h: TokenHolding,
)
    requires
        pre_c.wf(),
        vote_step(pre_c, pre_h, option_index, now, post_c, post_h),
    ensures
        post_c.wf(),
        post_c.total_votes == sum_votes(post_c.votes@),
{
    lemma_element_le_sum(pre_c.votes@, option_index as int);
    lemma_sum_update(
        pre_c.votes@,
        option_index as int,
        (pre_c.votes@[option_index as int] + 1) as u64,
    );
}

/// Law: token scarcity bounds voting.  Along any chain of successful vote
/// transitions against one campaign and one holding, the total tally rises
/// by exactly the number of units destroyed, and the number of successful
/// votes never exceeds the units the holding began with.
pub proof fn lemma_votes_bounded_by_tokens(
    cs: Seq<Campaign>,
    hs: Seq<TokenHolding>,
    idxs: Seq<u8>,
    nows: Seq<i64>,
)
    requires
        cs.len() >= 1,
        hs.len() == cs.len(),
        idxs.len() == cs.len() - 1,
        nows.len() == cs.len() - 1,
        forall|k: int|
            0 <= k < idxs.len() ==> #[trigger] vote_step(
                cs[k],
                hs[k],
                idxs[k],
                nows[k],
                cs[k + 1],
                hs[k + 1],
            ),
    ensures
        cs.last().total_votes == cs.first().total_votes + (cs.len() - 1),
        hs.last().amount == hs.first().amount - (cs.len() - 1),
        cs.len() - 1 <= hs.first().amount,
    decreases cs.len(),
{
    if cs.len() > 1 {
        let k = cs.len() - 2;
        assert(vote_step(cs[k], hs[k], idxs[k], nows[k], cs[k + 1], hs[k + 1]));
        assert forall|k2: int|
            0 <= k2 < idxs.drop_last().len() implies vote_step(
            cs.drop_last()[k2],
            hs.drop_last()[k2],
            idxs.drop_last()[k2],
            nows.drop_last()[k2],
            cs.drop_last()[k2 + 1],
            hs.drop_last()[k2 + 1],
        ) by {
            assert(vote_step(cs[k2], hs[k2], idxs[k2], nows[k2], cs[k2 + 1], hs[k2 + 1]));
        }
        lemma_votes_bounded_by_tokens(
            cs.drop_last(),
            hs.drop_last(),
            idxs.drop_last(),
            nows.drop_last(),
        );
        assert(cs.drop_last().first() == cs.first());
        assert(hs.drop_last().first() == hs.first());
        assert(cs.drop_last().last() == cs[k]);
        assert(hs.drop_last().last() == hs[k]);
    }
}

}
