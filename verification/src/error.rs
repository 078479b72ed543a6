//! The reasons for which an operation is refused.

use vstd::prelude::*;

verus! {

/// Why an operation was refused. Every refusal leaves all records untouched.
#[derive(Clone, Copy, Debug, PartialEq, Eq, Structural)]
pub enum ErrorCode {
    /// The vote arrived before the proposal's start time.
    VotingNotStarted,
    /// The vote arrived after the proposal's end time.
    VotingEnded,
    /// The proposal cannot be closed while its window is still open.
    VotingNotEnded,
    /// The end time is not after the start time.
    InvalidTimeRange,
    /// Fewer than two options were given.
    InsufficientOptions,
    /// The chosen option does not exist.
    InvalidOptionIndex,
    /// The proposal has been closed.
    ProposalInactive,
    /// This identity has already voted on this proposal.
    AlreadyVoted,
    /// The organisation's name is longer than 64 bytes.
    NameTooLong,
    /// The proposal's title is longer than 128 bytes.
    TitleTooLong,
    /// The description is longer than its limit.
    DescriptionTooLong,
    /// More than ten options were given.
    TooManyOptions,
    /// The requester is not the proposal's authority.
    Unauthorized,
}

} // verus!
