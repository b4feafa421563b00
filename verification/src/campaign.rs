use vstd::prelude::*;
use crate::account_id::{AccountId, ACCOUNT_ID_LEN};
use crate::errors::VoteError;

verus! {

/// Largest admissible number of options in one campaign.
pub const MAX_OPTIONS: usize = 10;

/// Largest admissible title, in bytes.
pub const MAX_TITLE_LEN: usize = 64;

/// Largest admissible option label, in bytes.
pub const MAX_OPTION_LEN: usize = 32;

/// Upper bound on the serialized size of a well-formed campaign record:
/// creator, length-prefixed title, length-prefixed options each with its
/// own length prefix, length-prefixed tallies, eligibility token, the two
/// timestamps, and the total counter.  The storage layer must know this
/// bound when it allocates the record, since a record can never grow.
pub const MAX_RECORD_SIZE: usize = ACCOUNT_ID_LEN + 4 + MAX_TITLE_LEN + 4 + MAX_OPTIONS
    * (4 + MAX_OPTION_LEN) + 4 + MAX_OPTIONS * 8 + ACCOUNT_ID_LEN + 8 + 8 + 8;

/// The sum of a sequence of tallies, as an unbounded integer.
pub open spec fn sum_votes(s: Seq<u64>) -> int
    decreases s.len(),
{
    if s.len() == 0 {
        0
    } else {
        sum_votes(s.drop_last()) + s.last()
    }
}

pub proof fn lemma_sum_push(s: Seq<u64>, x: u64)
    ensures
        sum_votes(s.push(x)) == sum_votes(s) + x,
{
    assert(s.push(x).drop_last() =~= s);
}

pub proof fn lemma_sum_nonneg(s: Seq<u64>)
    ensures
        sum_votes(s) >= 0,
    decreases s.len(),
{
    if s.len() > 0 {
        lemma_sum_nonneg(s.drop_last());
    }
}

/// Every tally is at most the sum of all tallies.
pub proof fn lemma_element_le_sum(s: Seq<u64>, i: int)
    requires
        0 <= i < s.len(),
    ensures
        s[i] <= sum_votes(s),
    decreases s.len(),
{
    if i == s.len() - 1 {
        lemma_sum_nonneg(s.drop_last());
    } else {
        lemma_element_le_sum(s.drop_last(), i);
    }
}

/// Replacing one tally changes the sum by the difference.
pub proof fn lemma_sum_update(s: Seq<u64>, i: int, v: u64)
    requires
        0 <= i < s.len(),
    ensures
        sum_votes(s.update(i, v)) == sum_votes(s) - s[i] + v,
    decreases s.len(),
{
    if i == s.len() - 1 {
        assert(s.update(i, v).drop_last() =~= s.drop_last());
    } else {
        lemma_sum_update(s.drop_last(), i, v);
        assert(s.update(i, v).drop_last() =~= s.drop_last().update(i, v));
    }
}

/// The durable record of one ballot.
///
/// Everything but `votes` and `total_votes` is fixed at creation; the two
/// counters are touched only by the vote transition.
#[derive(Debug)]
pub struct Campaign {
    /// Identity of the account that created the campaign.
    pub creator: AccountId,
    /// Title bytes; with `creator`, fixes the record's storage address.
    pub title: Vec<u8>,
    /// Ordered option labels, as bytes.
    pub options: Vec<Vec<u8>>,
    /// One tally per option.
    pub votes: Vec<u64>,
    /// The token type whose destruction authorizes one vote.
    pub eligibility_token_id: AccountId,
    /// First instant at which votes are accepted.
    pub start_time: i64,
    /// Last instant at which votes are accepted.
    pub end_time: i64,
    /// Always the sum of `votes`.
    pub total_votes: u64,
}

impl Campaign {
    /// The invariant that creation establishes and every vote preserves.
    pub open spec fn wf(self) -> bool {
        &&& self.creator.wf()
        &&& self.eligibility_token_id.wf()
        &&& self.title@.len() <= MAX_TITLE_LEN
        &&& 2 <= self.options@.len() <= MAX_OPTIONS
        &&& forall|i: int|
            0 <= i < self.options@.len() ==> (#[trigger] self.options@[i])@.len() <= MAX_OPTION_LEN
        &&& self.votes@.len() == self.options@.len()
        &&& self.start_time < self.end_time
        &&& self.total_votes == sum_votes(self.votes@)
    }

    /// Serialized size of a length-prefixed option list.
    pub open spec fn spec_options_len(opts: Seq<Vec<u8>>) -> int
        decreases opts.len(),
    {
        if opts.len() == 0 {
            0
        } else {
            Self::spec_options_len(opts.drop_last()) + 4 + opts.last()@.len()
        }
    }

    /// Serialized size of the whole record, field by field.
    pub open spec fn spec_encoded_len(self) -> int {
        ACCOUNT_ID_LEN + 4 + self.title@.len() + 4 + Self::spec_options_len(self.options@) + 4
            + 8 * self.votes@.len() + ACCOUNT_ID_LEN + 8 + 8 + 8
    }

    /// The serialized size of the record, always within the declared bound.
    pub fn encoded_len(&self) -> (r: usize)
        requires
            self.wf(),
        ensures
            r == self.spec_encoded_len(),
            r <= MAX_RECORD_SIZE,
    {
        let mut opts: usize = 0;
        let mut i: usize = 0;
        while i < self.options.len()
            invariant
                self.wf(),
                0 <= i <= self.options@.len(),
                opts == Self::spec_options_len(self.options@.take(i as int)),
                // 36 = 4 + MAX_OPTION_LEN, kept literal so the bound stays linear
                opts <= 36 * i,
            decreases self.options@.len() - i,
        {
            proof {
                assert(self.options@.take(i + 1).drop_last() =~= self.options@.take(i as int));
                assert(self.options@.take(i + 1).last() == self.options@[i as int]);
                assert((self.options@[i as int])@.len() <= MAX_OPTION_LEN);
                assert(opts <= 360);
            }
            opts = opts + 4 + self.options[i].len();
            i += 1;
        }
        proof {
            assert(self.options@.take(self.options@.len() as int) =~= self.options@);
        }
        ACCOUNT_ID_LEN + 4 + self.title.len() + 4 + opts + 4 + 8 * self.votes.len()
            + ACCOUNT_ID_LEN + 8 + 8 + 8
    }
}

/// Builds the record for a new ballot.
///
/// Rejects fewer than two options with `InvalidOptions`, and a start time
/// not strictly before the end time with `InvalidTimestamps`; otherwise
/// returns a fully initialized record whose tallies are all zero.  Where
/// the record lives, and that the same `(creator, title)` cannot be created
/// twice, is the store's concern.
pub fn create_campaign(
    creator: AccountId,
    title: Vec<u8>,
    options: Vec<Vec<u8>>,
    start_time: i64,
    end_time: i64,
    eligibility_token_id: AccountId,
) -> (r: Result<Campaign, VoteError>)
    requires
        creator.wf(),
        eligibility_token_id.wf(),
        title@.len() <= MAX_TITLE_LEN,
        options@.len() <= MAX_OPTIONS,
        forall|i: int| 0 <= i < options@.len() ==> (#[trigger] options@[i])@.len() <= MAX_OPTION_LEN,
    ensures
        options@.len() < 2 ==> r == Err::<Campaign, VoteError>(VoteError::InvalidOptions),
        options@.len() >= 2 && start_time >= end_time ==> r == Err::<Campaign, VoteError>(
            VoteError::InvalidTimestamps,
        ),
        r is Ok <==> options@.len() >= 2 && start_time < end_time,
        r matches Ok(c) ==> c.wf(),
        r matches Ok(c) ==> c.creator@ == creator@,
        r matches Ok(c) ==> c.title@ == title@,
        r matches Ok(c) ==> c.options@ == options@,
        r matches Ok(c) ==> c.votes@.len() == options@.len(),
        r matches Ok(c) ==> forall|i: int| 0 <= i < c.votes@.len() ==> c.votes@[i] == 0,
        r matches Ok(c) ==> c.eligibility_token_id@ == eligibility_token_id@,
        r matches Ok(c) ==> c.start_time == start_time && c.end_time == end_time,
        r matches Ok(c) ==> c.total_votes == 0,
{
    if options.len() < 2 {
        return Err(VoteError::InvalidOptions);
    }
    if start_time >= end_time {
        return Err(VoteError::InvalidTimestamps);
    }
    let n = options.len();
    let mut votes: Vec<u64> = Vec::new();
    let mut i: usize = 0;
    while i < n
        invariant
            0 <= i <= n,
            votes@.len() == i,
            forall|j: int| 0 <= j < i ==> votes@[j] == 0,
            sum_votes(votes@) == 0,
        decreases n - i,
    {
        proof {
            lemma_sum_push(votes@, 0u64);
        }
        votes.push(0);
        i += 1;
    }
    Ok(
        Campaign {
            creator,
            title,
            options,
            votes,
            eligibility_token_id,
            start_time,
            end_time,
            total_votes: 0,
        },
    )
}

}
