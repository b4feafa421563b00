use vstd::prelude::*;

verus! {

/// The failure modes of campaign creation and vote casting.
///
/// Every failure aborts its whole transition with no partial effect, and is
/// surfaced to the caller unchanged.
#[derive(Clone, Copy, Debug, PartialEq, Eq)]
pub enum VoteError {
    /// A vote arrived before the campaign's `start_time`.
    CampaignNotStarted,
    /// A vote arrived after the campaign's `end_time`.
    CampaignEnded,
    /// The chosen option index is not below the number of options.
    InvalidOption,
    /// Fewer than two options were supplied at creation.
    InvalidOptions,
    /// The start time was not strictly before the end time at creation.
    InvalidTimestamps,
    /// The voter's holding of the eligibility token is empty.
    InsufficientTokens,
    /// The presented token type is not the campaign's eligibility token.
    InvalidTokenMint,
}

}
