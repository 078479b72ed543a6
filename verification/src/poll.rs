//! One proposal together with the records of its voters, and what holds of
//! the two however votes and closings follow one another.
//!
//! The records are kept per voter, so no voter has two. The tally of an
//! option is then the number of voters whose record names it, and the sum of
//! the tallies is the number of voters who voted.

use vstd::prelude::*;
use vstd::set_lib::{lemma_set_disjoint_lens, lemma_set_subset_finite};
use crate::error::ErrorCode;
use crate::identity::Identity;
use crate::proposal::{close_proposal_outcome, ProposalRequest, ProposalView};
use crate::vote::{cast_vote_rejection, cast_vote_outcome, Vote};

verus! {

/// A proposal and the record of each of its voters, keyed by the voter.
pub struct Poll {
    pub proposal: ProposalView,
    pub records: Map<Identity, Vote>,
}

/// What can be asked of a poll.
pub enum Event {
    /// `voter` votes for the option at `option_index` at time `now`.
    Cast { voter: Identity, option_index: u8, now: int },
    /// `requester` closes the proposal at time `now`.
    Close { requester: Identity, now: int },
}

/// The sum of the tallies.
pub open spec fn total(counts: Seq<nat>) -> nat
    decreases counts.len(),
{
    if counts.len() == 0 {
        0
    } else {
        total(counts.drop_last()) + counts.last()
    }
}

impl Poll {
    /// The poll of a proposal for which nobody has a record yet.
    pub open spec fn fresh(proposal: ProposalView) -> Poll {
        Poll { proposal, records: Map::empty() }
    }

    /// The record kept for `voter`, if there is one.
    pub open spec fn record(self, voter: Identity) -> Option<Vote> {
        if self.records.dom().contains(voter) {
            Some(self.records[voter])
        } else {
            None
        }
    }

    /// Whether `voter` has a record that says that they voted.
    pub open spec fn has_voted(self, voter: Identity) -> bool {
        self.records.dom().contains(voter) && self.records[voter].has_voted
    }

    /// Everybody who voted.
    pub open spec fn voters(self) -> Set<Identity> {
        Set::new(|voter: Identity| self.has_voted(voter))
    }

    /// Everybody who voted for the option at `option`.
    pub open spec fn voters_for(self, option: int) -> Set<Identity> {
        Set::new(
            |voter: Identity| self.has_voted(voter) && self.records[voter].option_index == option,
        )
    }

    /// The poll after `voter` asked to vote: an accepted vote is counted and
    /// recorded under the voter, a refused one changes nothing.
    pub open spec fn cast(self, voter: Identity, option_index: u8, now: int) -> Poll {
        match cast_vote_outcome(self.proposal, self.record(voter), option_index, now) {
            Ok((proposal, record)) => Poll {
                proposal,
                records: self.records.insert(voter, record),
            },
            Err(_) => self,
        }
    }

    /// The poll after `requester` asked to close the proposal.
    pub open spec fn close(self, requester: Identity, now: int) -> Poll {
        match close_proposal_outcome(requester, self.proposal, now) {
            Ok(proposal) => Poll { proposal, ..self },
            Err(_) => self,
        }
    }

    /// The poll after one event.
    pub open spec fn step(self, event: Event) -> Poll {
        match event {
            Event::Cast { voter, option_index, now } => self.cast(voter, option_index, now),
            Event::Close { requester, now } => self.close(requester, now),
        }
    }

    /// The poll after a run of events, the first of them first.
    pub open spec fn run(self, events: Seq<Event>) -> Poll
        decreases events.len(),
    {
        if events.len() == 0 {
            self
        } else {
            self.run(events.drop_last()).step(events.last())
        }
    }

    /// The tallies agree with the records: the proposal is well formed,
    /// finitely many voters have a record, whoever voted chose an option
    /// that exists, and the tally of each option is the number of voters
    /// whose record names it.
    pub open spec fn consistent(self) -> bool {
        &&& self.proposal.well_formed()
        &&& self.records.dom().finite()
        &&& forall|voter: Identity| #[trigger]
            self.has_voted(voter) ==> self.records[voter].option_index
                < self.proposal.options.len()
        &&& forall|option: int|
            0 <= option < self.proposal.vote_counts.len() ==> self.proposal.vote_counts[option]
                == (#[trigger] self.voters_for(option)).len()
    }
}

/// Raising one tally by one raises the sum by one.
proof fn lemma_total_update(counts: Seq<nat>, option: int)
    requires
        0 <= option < counts.len(),
    ensures
        total(counts.update(option, counts[option] + 1)) == total(counts) + 1,
    decreases counts.len(),
{
    let raised = counts.update(option, counts[option] + 1);
    if option == counts.len() - 1 {
        assert(raised.drop_last() =~= counts.drop_last());
    } else {
        lemma_total_update(counts.drop_last(), option);
        assert(raised.drop_last() =~= counts.drop_last().update(
            option,
            counts.drop_last()[option] + 1,
        ));
    }
}

/// A newly created proposal with no records is consistent.
pub proof fn lemma_fresh_is_consistent(request: ProposalRequest, id: nat)
    requires
        request.rejection() is None,
    ensures
        Poll::fresh(request.proposal(id)).consistent(),
{
    let poll = Poll::fresh(request.proposal(id));
    let counts = poll.proposal.vote_counts;
    assert forall|option: int| 0 <= option < counts.len() implies counts[option] == (
    #[trigger] poll.voters_for(option)).len() by {
        assert(poll.voters_for(option) =~= Set::<Identity>::empty());
    }
}

/// No event breaks the agreement of tallies and records.
pub proof fn lemma_step_keeps_consistent(poll: Poll, event: Event)
    requires
        poll.consistent(),
    ensures
        poll.step(event).consistent(),
{
    let next = poll.step(event);
    let options = poll.proposal.options;
    let counts = next.proposal.vote_counts;
    match event {
        Event::Cast { voter, option_index, now } => {
            if cast_vote_rejection(poll.proposal, poll.record(voter), option_index, now) is None {
                assert(!poll.has_voted(voter));
                assert forall|other: Identity| #[trigger] next.has_voted(other) implies
                    next.records[other].option_index < options.len() by {
                    if other != voter {
                        assert(poll.has_voted(other));
                    }
                }
                assert forall|option: int| 0 <= option < counts.len() implies counts[option] == (
                #[trigger] next.voters_for(option)).len() by {
                    assert(poll.voters_for(option).subset_of(poll.records.dom()));
                    lemma_set_subset_finite(poll.records.dom(), poll.voters_for(option));
                    if option == option_index {
                        assert(next.voters_for(option) =~= poll.voters_for(option).insert(voter));
                        assert(!poll.voters_for(option).contains(voter));
                    } else {
                        assert(next.voters_for(option) =~= poll.voters_for(option));
                    }
                }
            }
        },
        Event::Close { requester, now } => {
            assert forall|option: int| 0 <= option < counts.len() implies counts[option] == (
            #[trigger] next.voters_for(option)).len() by {
                assert(next.voters_for(option) =~= poll.voters_for(option));
            }
            assert forall|other: Identity| #[trigger] next.has_voted(other) implies
                next.records[other].option_index < options.len() by {
                assert(poll.has_voted(other));
            }
        },
    }
}

/// No run of events breaks the agreement of tallies and records.
pub proof fn lemma_run_keeps_consistent(poll: Poll, events: Seq<Event>)
    requires
        poll.consistent(),
    ensures
        poll.run(events).consistent(),
    decreases events.len(),
{
    if events.len() > 0 {
        lemma_run_keeps_consistent(poll, events.drop_last());
        lemma_step_keeps_consistent(poll.run(events.drop_last()), events.last());
    }
}

impl Poll {
    /// Everybody who voted for an option before the one at `bound`.
    pub open spec fn voters_below(self, bound: int) -> Set<Identity> {
        Set::new(
            |voter: Identity| self.has_voted(voter) && self.records[voter].option_index < bound,
        )
    }
}

/// The first `bound` tallies sum to the number of voters who voted for one
/// of the first `bound` options.
proof fn lemma_total_below(poll: Poll, bound: int)
    requires
        poll.consistent(),
        0 <= bound <= poll.proposal.vote_counts.len(),
    ensures
        poll.voters_below(bound).finite(),
        total(poll.proposal.vote_counts.take(bound)) == poll.voters_below(bound).len(),
    decreases bound,
{
    let counts = poll.proposal.vote_counts;
    assert(poll.voters_below(bound).subset_of(poll.records.dom()));
    lemma_set_subset_finite(poll.records.dom(), poll.voters_below(bound));
    if bound == 0 {
        assert(poll.voters_below(0) =~= Set::<Identity>::empty());
    } else {
        let before = poll.voters_below(bound - 1);
        let here = poll.voters_for(bound - 1);
        lemma_total_below(poll, bound - 1);
        assert(counts.take(bound).drop_last() =~= counts.take(bound - 1));
        assert(here.subset_of(poll.records.dom()));
        lemma_set_subset_finite(poll.records.dom(), here);
        assert(before.disjoint(here));
        lemma_set_disjoint_lens(before, here);
        assert(poll.voters_below(bound) =~= before + here);
    }
}

/// In a consistent poll the tallies sum to the number of voters who voted.
pub proof fn lemma_total_counts_voters(poll: Poll)
    requires
        poll.consistent(),
    ensures
        poll.voters().finite(),
        total(poll.proposal.vote_counts) == poll.voters().len(),
{
    let counts = poll.proposal.vote_counts;
    lemma_total_below(poll, counts.len() as int);
    assert(counts.take(counts.len() as int) =~= counts);
    assert(poll.voters_below(counts.len() as int) =~= poll.voters());
}

/// However votes and closings follow the creation of a proposal, each
/// voter has at most one record, the tally of each option is the number of
/// voters whose record names it, and the tallies sum to the number of voters
/// who voted.
pub proof fn lemma_tally_counts_each_voter_once(
    request: ProposalRequest,
    id: nat,
    events: Seq<Event>,
)
    requires
        request.rejection() is None,
    ensures
        Poll::fresh(request.proposal(id)).run(events).consistent(),
        total(Poll::fresh(request.proposal(id)).run(events).proposal.vote_counts) == Poll::fresh(
            request.proposal(id),
        ).run(events).voters().len(),
{
    let start = Poll::fresh(request.proposal(id));
    lemma_fresh_is_consistent(request, id);
    lemma_run_keeps_consistent(start, events);
    lemma_total_counts_voters(start.run(events));
}

/// A voter whose vote was accepted is refused from then on: a second
/// request for the same proposal and voter fails, with `AlreadyVoted`
/// wherever the proposal is still open, the time is within the window and
/// the option exists, and changes nothing. Over the two requests the chosen
/// option's tally grows by exactly one, and so does the sum of the tallies.
pub proof fn lemma_second_vote_is_refused(
    poll: Poll,
    voter: Identity,
    first_option: u8,
    first_time: int,
    second_option: u8,
    second_time: int,
)
    requires
        poll.proposal.well_formed(),
        cast_vote_outcome(poll.proposal, poll.record(voter), first_option, first_time) is Ok,
    ensures
        ({
            let once = poll.cast(voter, first_option, first_time);
            let twice = once.cast(voter, second_option, second_time);
            let second = cast_vote_outcome(
                once.proposal,
                once.record(voter),
                second_option,
                second_time,
            );
            &&& second is Err
            &&& once.proposal.start_time <= second_time <= once.proposal.end_time && second_option
                < once.proposal.options.len() ==> second == Err::<(ProposalView, Vote), ErrorCode>(
                ErrorCode::AlreadyVoted,
            )
            &&& twice == once
            &&& twice.proposal.vote_counts == poll.proposal.vote_counts.update(
                first_option as int,
                poll.proposal.vote_counts[first_option as int] + 1,
            )
            &&& total(twice.proposal.vote_counts) == total(poll.proposal.vote_counts) + 1
        }),
{
    lemma_total_update(poll.proposal.vote_counts, first_option as int);
}

/// What no event undoes: a closed proposal stays closed, a voter who voted
/// keeps their record as it is, and who owns the proposal, what it offers
/// and when it runs never change.
pub proof fn lemma_step_undoes_nothing(poll: Poll, event: Event)
    ensures
        !poll.proposal.is_active ==> !poll.step(event).proposal.is_active,
        forall|voter: Identity| #[trigger]
            poll.has_voted(voter) ==> poll.step(event).has_voted(voter) && poll.step(
                event,
            ).records[voter] == poll.records[voter],
        poll.step(event).proposal.id == poll.proposal.id,
        poll.step(event).proposal.authority == poll.proposal.authority,
        poll.step(event).proposal.title == poll.proposal.title,
        poll.step(event).proposal.description == poll.proposal.description,
        poll.step(event).proposal.options == poll.proposal.options,
        poll.step(event).proposal.start_time == poll.proposal.start_time,
        poll.step(event).proposal.end_time == poll.proposal.end_time,
{
}

/// What no run of events undoes: the same as for one event, from the
/// first to the last.
pub proof fn lemma_run_undoes_nothing(poll: Poll, events: Seq<Event>)
    ensures
        !poll.proposal.is_active ==> !poll.run(events).proposal.is_active,
        forall|voter: Identity| #[trigger]
            poll.has_voted(voter) ==> poll.run(events).has_voted(voter) && poll.run(
                events,
            ).records[voter] == poll.records[voter],
        poll.run(events).proposal.id == poll.proposal.id,
        poll.run(events).proposal.authority == poll.proposal.authority,
        poll.run(events).proposal.title == poll.proposal.title,
        poll.run(events).proposal.description == poll.proposal.description,
        poll.run(events).proposal.options == poll.proposal.options,
        poll.run(events).proposal.start_time == poll.proposal.start_time,
        poll.run(events).proposal.end_time == poll.proposal.end_time,
    decreases events.len(),
{
    if events.len() > 0 {
        let before = poll.run(events.drop_last());
        lemma_run_undoes_nothing(poll, events.drop_last());
        lemma_step_undoes_nothing(before, events.last());
        assert forall|voter: Identity| #[trigger] poll.has_voted(voter) implies poll.run(
            events,
        ).has_voted(voter) && poll.run(events).records[voter] == poll.records[voter] by {
            assert(before.has_voted(voter));
        }
    }
}

/// A vote outside the window is refused and changes nothing, whatever else
/// holds of the poll.
pub proof fn lemma_vote_outside_window_is_refused(
    poll: Poll,
    voter: Identity,
    option_index: u8,
    now: int,
)
    requires
        now < poll.proposal.start_time || now > poll.proposal.end_time,
    ensures
        cast_vote_outcome(poll.proposal, poll.record(voter), option_index, now) is Err,
        poll.cast(voter, option_index, now) == poll,
{
}

/// Whoever is not the proposal's authority cannot close it, whatever the
/// time.
pub proof fn lemma_stranger_cannot_close(poll: Poll, requester: Identity, now: int)
    requires
        requester != poll.proposal.authority,
    ensures
        close_proposal_outcome(requester, poll.proposal, now) == Err::<ProposalView, ErrorCode>(
            ErrorCode::Unauthorized,
        ),
        poll.close(requester, now) == poll,
{
}

} // verus!
