//! Votes and their casting.

use vstd::prelude::*;
use crate::error::ErrorCode;
use crate::identity::Identity;
use crate::proposal::{Proposal, ProposalView};

verus! {

/// One identity's participation in one proposal.
///
/// A record is kept per pair of proposal and voter, so that at most one
/// exists for the pair. It is written once, by the first accepted vote.
#[derive(Clone, Copy, Debug, PartialEq, Eq, Structural)]
pub struct Vote {
    /// Set by the first accepted vote and never cleared.
    pub has_voted: bool,
    /// The option voted for; meaningful once `has_voted` is set.
    pub option_index: u8,
}

/// The reason for which a vote is refused, if it is. The checks run in this
/// order and the first that fails decides: the proposal is open, the time
/// is not before the window, the time is not after it, the option exists,
/// the voter's record does not say that they voted. No record counts as a
/// record of someone who has not voted.
pub open spec fn cast_vote_rejection(
    proposal: ProposalView,
    existing: Option<Vote>,
    option_index: u8,
    now: int,
) -> Option<ErrorCode> {
    if !proposal.is_active {
        Some(ErrorCode::ProposalInactive)
    } else if now < proposal.start_time {
        Some(ErrorCode::VotingNotStarted)
    } else if now > proposal.end_time {
        Some(ErrorCode::VotingEnded)
    } else if option_index >= proposal.options.len() {
        Some(ErrorCode::InvalidOptionIndex)
    } else if existing matches Some(record) && record.has_voted {
        Some(ErrorCode::AlreadyVoted)
    } else {
        None
    }
}

/// The proposal with one more vote for the option at `option_index`.
pub open spec fn counted(proposal: ProposalView, option_index: u8) -> ProposalView {
    ProposalView {
        vote_counts: proposal.vote_counts.update(
            option_index as int,
            proposal.vote_counts[option_index as int] + 1,
        ),
        ..proposal
    }
}

/// The outcome of a vote: the proposal with the vote counted and the
/// voter's record, or the reason for the refusal.
pub open spec fn cast_vote_outcome(
    proposal: ProposalView,
    existing: Option<Vote>,
    option_index: u8,
    now: int,
) -> Result<(ProposalView, Vote), ErrorCode> {
    match cast_vote_rejection(proposal, existing, option_index, now) {
        Some(e) => Err(e),
        None => Ok((counted(proposal, option_index), Vote { has_voted: true, option_index })),
    }
}

/// Decides whether a vote would be accepted, and why not if it would not.
/// Nothing is counted.
pub fn check_vote(
    proposal: &Proposal,
    existing: Option<Vote>,
    option_index: u8,
    now: i64,
) -> (rejection: Option<ErrorCode>)
    ensures
        rejection == cast_vote_rejection(proposal@, existing, option_index, now as int),
{
    if !proposal.is_active {
        return Some(ErrorCode::ProposalInactive);
    }
    if now < proposal.start_time {
        return Some(ErrorCode::VotingNotStarted);
    }
    if now > proposal.end_time {
        return Some(ErrorCode::VotingEnded);
    }
    if option_index as usize >= proposal.options.len() {
        return Some(ErrorCode::InvalidOptionIndex);
    }
    if let Some(record) = existing {
        if record.has_voted {
            return Some(ErrorCode::AlreadyVoted);
        }
    }
    None
}

/// Casts `voter`'s vote for the option at `option_index` at time `now`.
///
/// `existing` is the record kept for this proposal and this voter, if there
/// is one. The decision depends on the record and not on who `voter` is: the
/// caller looks the record up under the pair and stores the returned record
/// under it, in one step with the updated proposal.
///
/// On success the option's tally has grown by one, nothing else in the
/// proposal has changed, and the returned record says that the voter voted
/// and for what. A refusal leaves the proposal as it was.
///
/// Wherever the vote is acceptable, which [`check_vote`] tells, the option
/// must have a tally with room for one more vote. In a well-formed proposal
/// every option has a tally.
#[allow(unused_variables)]
pub fn cast_vote(
    voter: Identity,
    proposal: &mut Proposal,
    existing: Option<Vote>,
    option_index: u8,
    now: i64,
) -> (result: Result<Vote, ErrorCode>)
    requires
        cast_vote_rejection(old(proposal)@, existing, option_index, now as int) is None
            ==> old(proposal).can_count(option_index),
    ensures
        match cast_vote_outcome(old(proposal)@, existing, option_index, now as int) {
            Ok((updated, record)) => result == Ok::<Vote, ErrorCode>(record) && final(proposal)@
                == updated,
            Err(e) => result == Err::<Vote, ErrorCode>(e) && *final(proposal) == *old(proposal),
        },
        now < old(proposal).start_time || now > old(proposal).end_time ==> result is Err
            && final(proposal).vote_counts == old(proposal).vote_counts,
        existing matches Some(record) && record.has_voted ==> result is Err,
        result is Ok ==> *final(proposal) == (Proposal {
            vote_counts: final(proposal).vote_counts,
            ..*old(proposal)
        }) && final(proposal).vote_counts@ == old(proposal).vote_counts@.update(
            option_index as int,
            (old(proposal).vote_counts[option_index as int] + 1) as u64,
        ),
        old(proposal).well_formed() ==> final(proposal).well_formed(),
{
    if let Some(e) = check_vote(proposal, existing, option_index, now) {
        return Err(e);
    }
    let index = option_index as usize;
    let count: u64 = proposal.vote_counts[index];
    proposal.vote_counts[index] = count + 1;
    assert(proposal@.vote_counts =~= counted(old(proposal)@, option_index).vote_counts);
    Ok(Vote { has_voted: true, option_index })
}

} // verus!
