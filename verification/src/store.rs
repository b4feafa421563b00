use vstd::prelude::*;
use crate::account_id::{AccountId, id_eq};
use crate::address::{campaign_address, derive_campaign_address};
use crate::campaign::{Campaign, create_campaign, MAX_OPTIONS, MAX_OPTION_LEN, MAX_TITLE_LEN};
use crate::errors::VoteError;
use crate::vote::{TokenHolding, cast_vote, vote_decision, vote_step};

verus! {

/// Why the store refused to allocate a new campaign record.
#[derive(Clone, Copy, Debug, PartialEq, Eq)]
pub enum CreateError {
    /// No address can be derived for these seeds (an over-long title, or
    /// no valid bump).
    AddressUnavailable,
    /// A record already lives at the derived address; in particular, the
    /// same creator already created a campaign under this title.
    AlreadyExists,
    /// The request exceeds the fixed maxima on title, option count or
    /// option length, so its record could not fit the declared storage
    /// size.
    RecordTooLarge,
    /// The creation request itself was invalid.
    Rejected(VoteError),
}

/// Whether a creation request fits the fixed maxima that size every
/// record at allocation time.
pub open spec fn request_within_maxima(title: Seq<u8>, options: Seq<Vec<u8>>) -> bool {
    &&& title.len() <= MAX_TITLE_LEN
    &&& options.len() <= MAX_OPTIONS
    &&& forall|i: int| 0 <= i < options.len() ==> (#[trigger] options[i])@.len() <= MAX_OPTION_LEN
}

/// The account space of one deployment: every campaign record lives at
/// the address derived from its creator and title, and no address holds
/// two records.
pub struct CampaignStore {
    /// The program under which addresses are derived.
    pub program_id: AccountId,
    /// The address of each record, parallel to `campaigns`.
    pub addresses: Vec<AccountId>,
    /// The records themselves.
    pub campaigns: Vec<Campaign>,
}

impl CampaignStore {
    /// The store's invariant: records and addresses run in parallel, each
    /// record is well formed and sits exactly at the address derived from
    /// its creator and title, and addresses never repeat.
    pub open spec fn wf(self) -> bool {
        &&& self.program_id.wf()
        &&& self.addresses@.len() == self.campaigns@.len()
        &&& forall|i: int| 0 <= i < self.campaigns@.len() ==> (#[trigger] self.campaigns@[i]).wf()
        &&& forall|i: int|
            0 <= i < self.campaigns@.len() ==> campaign_address(
                self.program_id@,
                (#[trigger] self.campaigns@[i]).creator@,
                self.campaigns@[i].title@,
            ) == Some(self.addresses@[i]@)
        &&& forall|i: int, j: int|
            0 <= i < j < self.addresses@.len() ==> (#[trigger] self.addresses@[i])@ != (
            #[trigger] self.addresses@[j])@
    }

    /// Whether some record sits at address `a`.
    pub open spec fn has_address(self, a: Seq<u8>) -> bool {
        exists|i: int| 0 <= i < self.addresses@.len() && (#[trigger] self.addresses@[i])@ == a
    }

    /// Whether some record belongs to `creator` under `title`.
    pub open spec fn has_campaign(self, creator: Seq<u8>, title: Seq<u8>) -> bool {
        exists|i: int|
            0 <= i < self.campaigns@.len() && (#[trigger] self.campaigns@[i]).creator@ == creator
                && self.campaigns@[i].title@ == title
    }

    /// Whether the address derived for `(creator, title)` is already in
    /// use.
    pub open spec fn addr_taken(self, creator: Seq<u8>, title: Seq<u8>) -> bool {
        campaign_address(self.program_id@, creator, title) matches Some(a) && self.has_address(a)
    }

    /// An empty account space for one program.
    pub fn new(program_id: AccountId) -> (s: CampaignStore)
        requires
            program_id.wf(),
        ensures
            s.wf(),
            s.program_id@ == program_id@,
            s.campaigns@.len() == 0,
    {
        CampaignStore { program_id, addresses: Vec::new(), campaigns: Vec::new() }
    }

    /// The index of the record at address `addr`, if any.
    fn find_address(&self, addr: &AccountId) -> (r: Option<usize>)
        ensures
            r matches Some(i) ==> (i < self.addresses@.len() && (self.addresses@[i as int])@
                == addr@),
            r is None ==> forall|i: int|
                0 <= i < self.addresses@.len() ==> (#[trigger] self.addresses@[i])@ != addr@,
    {
        let mut i: usize = 0;
        while i < self.addresses.len()
            invariant
                0 <= i <= self.addresses@.len(),
                forall|j: int| 0 <= j < i ==> (#[trigger] self.addresses@[j])@ != addr@,
            decreases self.addresses@.len() - i,
        {
            if id_eq(&self.addresses[i], addr) {
                return Some(i);
            }
            i += 1;
        }
        None
    }

    /// The record at index `i`.
    pub fn campaign(&self, i: usize) -> (r: &Campaign)
        requires
            i < self.campaigns@.len(),
        ensures
            *r == self.campaigns@[i as int],
    {
        &self.campaigns[i]
    }

    /// Number of records in the store.
    pub fn len(&self) -> (r: usize)
        ensures
            r == self.campaigns@.len(),
    {
        self.campaigns.len()
    }

    /// Allocates the record for a new ballot at the address derived from
    /// `(creator, title)`.
    ///
    /// Creation is exclusive: if any record already sits at that address —
    /// in particular, whenever the same creator already holds a campaign
    /// under the same title — it fails with `AlreadyExists` and changes
    /// nothing.  Requests over the fixed maxima are refused rather than
    /// ever growing a record.
    pub fn create_campaign(
        &mut self,
        creator: AccountId,
        title: Vec<u8>,
        options: Vec<Vec<u8>>,
        start_time: i64,
        end_time: i64,
        eligibility_token_id: AccountId,
    ) -> (r: Result<usize, CreateError>)
        requires
            old(self).wf(),
            creator.wf(),
            eligibility_token_id.wf(),
        ensures
            final(self).wf(),
            final(self).program_id == old(self).program_id,
            r is Err ==> *final(self) == *old(self),
            campaign_address(old(self).program_id@, creator@, title@) is None ==> r == Err::<
                usize,
                CreateError,
            >(CreateError::AddressUnavailable),
            old(self).addr_taken(creator@, title@) ==> r == Err::<usize, CreateError>(
                CreateError::AlreadyExists,
            ),
            old(self).has_campaign(creator@, title@) ==> r == Err::<usize, CreateError>(
                CreateError::AlreadyExists,
            ),
            campaign_address(old(self).program_id@, creator@, title@) is Some && !old(self).addr_taken(creator@, title@) && !request_within_maxima(title@, options@) ==> r
                == Err::<usize, CreateError>(CreateError::RecordTooLarge),
            campaign_address(old(self).program_id@, creator@, title@) is Some && !old(self).addr_taken(creator@, title@) && request_within_maxima(title@, options@)
                && options@.len() < 2 ==> r == Err::<usize, CreateError>(
                CreateError::Rejected(VoteError::InvalidOptions),
            ),
            campaign_address(old(self).program_id@, creator@, title@) is Some && !old(self).addr_taken(creator@, title@) && request_within_maxima(title@, options@)
                && options@.len() >= 2 && start_time >= end_time ==> r == Err::<
                usize,
                CreateError,
            >(CreateError::Rejected(VoteError::InvalidTimestamps)),
            campaign_address(old(self).program_id@, creator@, title@) is Some && !old(self).addr_taken(creator@, title@) && request_within_maxima(title@, options@)
                && options@.len() >= 2 && start_time < end_time ==> r is Ok,
            r matches Ok(i) ==> i == old(self).campaigns@.len(),
            r is Ok ==> final(self).campaigns@.len() == old(self).campaigns@.len() + 1,
            r is Ok ==> forall|i: int|
                0 <= i < old(self).campaigns@.len() ==> final(self).campaigns@[i] == old(self).campaigns@[i],

            r is Ok ==> final(self).campaigns@.last().wf(),
            r is Ok ==> final(self).campaigns@.last().creator@ == creator@,
            r is Ok ==> final(self).campaigns@.last().title@ == title@,
            r is Ok ==> final(self).campaigns@.last().options@ == options@,
            r is Ok ==> final(self).campaigns@.last().total_votes == 0,
            r is Ok ==> forall|i: int|
                0 <= i < final(self).campaigns@.last().votes@.len() ==> final(self).campaigns@.last().votes@[i] == 0,
            r is Ok ==> final(self).campaigns@.last().eligibility_token_id@
                == eligibility_token_id@,
            r is Ok ==> final(self).campaigns@.last().start_time == start_time && final(self).campaigns@.last().end_time == end_time,
            r is Ok ==> final(self).has_campaign(creator@, title@),
    {
        let addr_opt = derive_campaign_address(&self.program_id, &creator, &title);
        let addr = match addr_opt {
            Some(a) => a,
            None => {
                return Err(CreateError::AddressUnavailable);
            },
        };
        match self.find_address(&addr) {
            Some(_) => {
                return Err(CreateError::AlreadyExists);
            },
            None => {},
        }
        proof {
            if self.has_campaign(creator@, title@) {
                let i = choose|i: int|
                    0 <= i < self.campaigns@.len() && (#[trigger] self.campaigns@[i]).creator@
                        == creator@ && self.campaigns@[i].title@ == title@;
                assert(campaign_address(self.program_id@, self.campaigns@[i].creator@,
                    self.campaigns@[i].title@) == Some(self.addresses@[i]@));
                assert(self.addresses@[i]@ == addr@);
                assert(false);
            }
            if self.addr_taken(creator@, title@) {
                let i = choose|i: int|
                    0 <= i < self.addresses@.len() && (#[trigger] self.addresses@[i])@ == addr@;
                assert(false);
            }
        }
        if title.len() > MAX_TITLE_LEN || options.len() > MAX_OPTIONS {
            return Err(CreateError::RecordTooLarge);
        }
        let mut i: usize = 0;
        while i < options.len()
            invariant
                0 <= i <= options@.len(),
                forall|j: int| 0 <= j < i ==> (#[trigger] options@[j])@.len() <= MAX_OPTION_LEN,
                *self == *old(self),
                self.wf(),
                creator.wf(),
                eligibility_token_id.wf(),
                addr.wf(),
                campaign_address(self.program_id@, creator@, title@) == Some(addr@),
                !self.addr_taken(creator@, title@),
                !self.has_campaign(creator@, title@),
                forall|k: int|
                    0 <= k < self.addresses@.len() ==> (#[trigger] self.addresses@[k])@ != addr@,
                title@.len() <= MAX_TITLE_LEN,
                options@.len() <= MAX_OPTIONS,
            decreases options@.len() - i,
        {
            if options[i].len() > MAX_OPTION_LEN {
                return Err(CreateError::RecordTooLarge);
            }
            i += 1;
        }
        match create_campaign(creator, title, options, start_time, end_time, eligibility_token_id) {
            Err(e) => Err(CreateError::Rejected(e)),
            Ok(c) => {
                let idx = self.campaigns.len();
                self.addresses.push(addr);
                self.campaigns.push(c);
                proof {
                    assert forall|k: int|
                        0 <= k < self.campaigns@.len() implies (#[trigger] self.campaigns@[k]).wf()
                        && campaign_address(self.program_id@, self.campaigns@[k].creator@,
                        self.campaigns@[k].title@) == Some(self.addresses@[k]@) by {
                        if k < self.campaigns@.len() - 1 {
                            assert(self.campaigns@[k] == old(self).campaigns@[k]);
                            assert(self.addresses@[k] == old(self).addresses@[k]);
                        }
                    }
                    assert forall|a: int, b: int|
                        0 <= a < b < self.addresses@.len() implies (#[trigger] self.addresses@[a])@
                        != (#[trigger] self.addresses@[b])@ by {
                        if b < self.addresses@.len() - 1 {
                            assert(self.addresses@[a] == old(self).addresses@[a]);
                            assert(self.addresses@[b] == old(self).addresses@[b]);
                        } else {
                            assert(self.addresses@[a] == old(self).addresses@[a]);
                            assert(old(self).addresses@[a]@ != addr@);
                        }
                    }
                    assert(self.campaigns@.last() == self.campaigns@[idx as int]);
                    assert(self.has_campaign(creator@, title@)) by {
                        assert((self.campaigns@[idx as int]).creator@ == creator@
                            && self.campaigns@[idx as int].title@ == title@);
                    }
                }
                Ok(idx)
            },
        }
    }

    /// Finds the campaign `creator` owns under `title`, by deriving its
    /// address — no separate lookup index exists or is needed.  Whenever
    /// the pair was created, this returns its record.
    pub fn find_campaign(&self, creator: &AccountId, title: &Vec<u8>) -> (r: Option<usize>)
        requires
            self.wf(),
        ensures
            r matches Some(i) ==> (i < self.campaigns@.len() && campaign_address(
                self.program_id@,
                creator@,
                title@,
            ) == Some(self.addresses@[i as int]@)),
            self.has_campaign(creator@, title@) ==> (r matches Some(i)
                && self.campaigns@[i as int].creator@ == creator@
                && self.campaigns@[i as int].title@ == title@),
    {
        let addr = match derive_campaign_address(&self.program_id, creator, title) {
            Some(a) => a,
            None => {
                proof {
                    if self.has_campaign(creator@, title@) {
                        let i = choose|i: int|
                            0 <= i < self.campaigns@.len() && (#[trigger] self.campaigns@[i]).creator@
                                == creator@ && self.campaigns@[i].title@ == title@;
                        assert(false);
                    }
                }
                return None;
            },
        };
        let r = self.find_address(&addr);
        proof {
            if self.has_campaign(creator@, title@) {
                let i = choose|i: int|
                    0 <= i < self.campaigns@.len() && (#[trigger] self.campaigns@[i]).creator@
                        == creator@ && self.campaigns@[i].title@ == title@;
                assert(self.addresses@[i]@ == addr@);
                if r is None {
                    assert(false);
                }
                let j = r->Some_0 as int;
                if i != j {
                    if i < j {
                        assert((self.addresses@[i])@ != (self.addresses@[j])@);
                    } else {
                        assert((self.addresses@[j])@ != (self.addresses@[i])@);
                    }
                    assert(false);
                }
            }
        }
        r
    }

    /// The whole vote transition against the record at `index`: validate,
    /// destroy one unit of the voter's holding, and update the tallies,
    /// as one atomic unit.  On any failure the store and the holding
    /// stand unchanged.
    pub fn cast_vote(
        &mut self,
        index: usize,
        holding: &mut TokenHolding,
        option_index: u8,
        now: i64,
    ) -> (r: Result<(), VoteError>)
        requires
            old(self).wf(),
            index < old(self).campaigns@.len(),
            old(holding).wf(),
            old(self).campaigns@[index as int].total_votes < u64::MAX,
        ensures
            final(self).wf(),
            final(self).program_id == old(self).program_id,
            final(self).addresses@ == old(self).addresses@,
            final(self).campaigns@.len() == old(self).campaigns@.len(),
            forall|i: int|
                0 <= i < old(self).campaigns@.len() && i != index ==> final(self).campaigns@[i]
                    == old(self).campaigns@[i],
            r is Ok <==> vote_decision(
                old(self).campaigns@[index as int],
                old(holding).token_id@,
                old(holding).amount,
                option_index,
                now,
            ) is Ok,
            r matches Err(e) ==> Err::<(), VoteError>(e) == vote_decision(
                old(self).campaigns@[index as int],
                old(holding).token_id@,
                old(holding).amount,
                option_index,
                now,
            ),
            r is Err ==> (final(self).campaigns@ == old(self).campaigns@ && *final(holding)
                == *old(holding)),
            r is Ok ==> vote_step(
                old(self).campaigns@[index as int],
                *old(holding),
                option_index,
                now,
                final(self).campaigns@[index as int],
                *final(holding),
            ),
    {
        let c = &mut self.campaigns[index];
        let r = cast_vote(c, holding, option_index, now);
        proof {
            if r is Err {
                assert(self.campaigns@ =~= old(self).campaigns@);
            }
            assert forall|k: int|
                0 <= k < self.campaigns@.len() implies (#[trigger] self.campaigns@[k]).wf()
                && campaign_address(self.program_id@, self.campaigns@[k].creator@,
                self.campaigns@[k].title@) == Some(self.addresses@[k]@) by {
                if k != index {
                    assert(self.campaigns@[k] == old(self).campaigns@[k]);
                }
            }
        }
        r
    }
}


/// Law: identity is exclusive.  In a well-formed store, no two records
/// share a creator and a title: both would have to sit at the single
/// address derived from that pair, and no address holds two records.
pub proof fn lemma_campaign_identity_unique(s: CampaignStore, i: int, j: int)
    requires
        s.wf(),
        0 <= i < s.campaigns@.len(),
        0 <= j < s.campaigns@.len(),
        i != j,
    ensures
        s.campaigns@[i].creator@ != s.campaigns@[j].creator@ || s.campaigns@[i].title@
            != s.campaigns@[j].title@,
{
    if s.campaigns@[i].creator@ == s.campaigns@[j].creator@ && s.campaigns@[i].title@
        == s.campaigns@[j].title@ {
        assert(campaign_address(s.program_id@, s.campaigns@[i].creator@, s.campaigns@[i].title@)
            == Some(s.addresses@[i]@));
        assert(campaign_address(s.program_id@, s.campaigns@[j].creator@, s.campaigns@[j].title@)
            == Some(s.addresses@[j]@));
        if i < j {
            assert((s.addresses@[i])@ != (s.addresses@[j])@);
        } else {
            assert((s.addresses@[j])@ != (s.addresses@[i])@);
        }
    }
}

} // verus!
