//! Proposals: their creation under an organisation and their closing.

use vstd::prelude::*;
use crate::dao::{DaoView, DAO};
use crate::error::ErrorCode;
use crate::identity::Identity;
use crate::text::{byte_len, fits};

verus! {

/// The most bytes that a proposal's title may take.
pub const MAX_TITLE_LEN: usize = 128;

/// The most bytes that a proposal's description may take.
pub const MAX_PROPOSAL_DESCRIPTION_LEN: usize = 1024;

/// The fewest options that a proposal may offer.
pub const MIN_OPTIONS: usize = 2;

/// The most options that a proposal may offer.
pub const MAX_OPTIONS: usize = 10;

/// A single decision under an organisation, with its running tally.
#[derive(Clone, Debug, PartialEq, Eq)]
pub struct Proposal {
    /// The proposal's number within its organisation, counted from 1.
    pub id: u64,
    /// Who created the proposal, and so who may close it.
    pub authority: Identity,
    pub title: String,
    pub description: String,
    /// Votes count from this time on, inclusive.
    pub start_time: i64,
    /// Votes count up to this time, inclusive.
    pub end_time: i64,
    /// What can be voted for. The position of an option is its index.
    pub options: Vec<String>,
    /// `vote_counts[i]` is the number of votes cast for `options[i]`.
    pub vote_counts: Vec<u64>,
    /// Whether the proposal still takes votes. Closing clears it for good.
    pub is_active: bool,
}

/// What a [`Proposal`] is, mathematically.
pub struct ProposalView {
    pub id: nat,
    pub authority: Identity,
    pub title: Seq<char>,
    pub description: Seq<char>,
    pub start_time: int,
    pub end_time: int,
    pub options: Seq<Seq<char>>,
    pub vote_counts: Seq<nat>,
    pub is_active: bool,
}

impl ProposalView {
    /// What holds of every proposal at all times: between two and ten
    /// options, one tally per option, and a window that ends after it starts.
    pub open spec fn well_formed(self) -> bool {
        &&& MIN_OPTIONS <= self.options.len() <= MAX_OPTIONS
        &&& self.vote_counts.len() == self.options.len()
        &&& self.end_time > self.start_time
    }
}

impl View for Proposal {
    type V = ProposalView;

    open spec fn view(&self) -> ProposalView {
        ProposalView {
            id: self.id as nat,
            authority: self.authority,
            title: self.title@,
            description: self.description@,
            start_time: self.start_time as int,
            end_time: self.end_time as int,
            options: self.options.deep_view(),
            vote_counts: self.vote_counts@.map_values(|count: u64| count as nat),
            is_active: self.is_active,
        }
    }
}

impl Proposal {
    /// See [`ProposalView::well_formed`].
    pub open spec fn well_formed(&self) -> bool {
        self@.well_formed()
    }

    /// Tests whether the record is well formed, for callers that got it from
    /// storage and not from [`create_proposal`].
    pub fn is_well_formed(&self) -> (ok: bool)
        ensures
            ok == self.well_formed(),
    {
        MIN_OPTIONS <= self.options.len() && self.options.len() <= MAX_OPTIONS
            && self.vote_counts.len() == self.options.len() && self.end_time > self.start_time
    }

    /// Whether one more vote for the option at `option_index` can be
    /// counted: the option has a tally, and the tally is not at the largest
    /// number that it can hold.
    pub open spec fn can_count(&self, option_index: u8) -> bool {
        &&& option_index < self.vote_counts.len()
        &&& self.vote_counts[option_index as int] < u64::MAX
    }
}

/// What is asked for when a proposal is created.
pub struct ProposalRequest {
    pub creator: Identity,
    pub title: Seq<char>,
    pub description: Seq<char>,
    pub options: Seq<Seq<char>>,
    pub start_time: int,
    pub end_time: int,
}

/// The reason for which a request with these contents is refused, if it
/// is. The checks run in this order and the first that fails decides:
/// title, description, too many options, too few options, window.
pub open spec fn request_rejection(
    title: Seq<char>,
    description: Seq<char>,
    options: Seq<Seq<char>>,
    start_time: int,
    end_time: int,
) -> Option<ErrorCode> {
    if byte_len(title) > MAX_TITLE_LEN {
        Some(ErrorCode::TitleTooLong)
    } else if byte_len(description) > MAX_PROPOSAL_DESCRIPTION_LEN {
        Some(ErrorCode::DescriptionTooLong)
    } else if options.len() > MAX_OPTIONS {
        Some(ErrorCode::TooManyOptions)
    } else if options.len() < MIN_OPTIONS {
        Some(ErrorCode::InsufficientOptions)
    } else if end_time <= start_time {
        Some(ErrorCode::InvalidTimeRange)
    } else {
        None
    }
}

impl ProposalRequest {
    /// The reason for which the request is refused, if it is. Who asks
    /// plays no part in it.
    pub open spec fn rejection(self) -> Option<ErrorCode> {
        request_rejection(
            self.title,
            self.description,
            self.options,
            self.start_time,
            self.end_time,
        )
    }

    /// The proposal that an accepted request creates as number `id`: open,
    /// with every tally at zero.
    pub open spec fn proposal(self, id: nat) -> ProposalView {
        ProposalView {
            id,
            authority: self.creator,
            title: self.title,
            description: self.description,
            start_time: self.start_time,
            end_time: self.end_time,
            options: self.options,
            vote_counts: Seq::new(self.options.len(), |i: int| 0nat),
            is_active: true,
        }
    }
}

/// The outcome of a request under `dao`: the organisation with its counter
/// advanced by one and the new proposal, which carries the advanced counter
/// as its id, or the reason for the refusal.
///
/// Who asks is not checked: any identity may create a proposal under any
/// organisation. Only closing is reserved to the proposal's authority.
pub open spec fn create_proposal_outcome(dao: DaoView, request: ProposalRequest) -> Result<
    (DaoView, ProposalView),
    ErrorCode,
> {
    match request.rejection() {
        Some(e) => Err(e),
        None => Ok(
            (
                DaoView { proposal_count: dao.proposal_count + 1, ..dao },
                request.proposal(dao.proposal_count + 1),
            ),
        ),
    }
}

/// Decides whether a request with these contents is acceptable, and why not
/// if it is not. Nothing is created.
pub fn check_request(
    title: &String,
    description: &String,
    options: &Vec<String>,
    start_time: i64,
    end_time: i64,
) -> (rejection: Option<ErrorCode>)
    ensures
        rejection == request_rejection(
            title@,
            description@,
            options.deep_view(),
            start_time as int,
            end_time as int,
        ),
{
    if !fits(title, MAX_TITLE_LEN) {
        Some(ErrorCode::TitleTooLong)
    } else if !fits(description, MAX_PROPOSAL_DESCRIPTION_LEN) {
        Some(ErrorCode::DescriptionTooLong)
    } else if options.len() > MAX_OPTIONS {
        Some(ErrorCode::TooManyOptions)
    } else if options.len() < MIN_OPTIONS {
        Some(ErrorCode::InsufficientOptions)
    } else if end_time <= start_time {
        Some(ErrorCode::InvalidTimeRange)
    } else {
        None
    }
}

/// Creates a proposal under `dao` on behalf of `creator`, who becomes its
/// authority and need not be the organisation's.
///
/// On success the organisation's counter has advanced by one and the new
/// proposal carries it as its id. A refusal leaves `dao` as it was.
///
/// The counter must have room for one more proposal wherever the request is
/// acceptable, which [`check_request`] tells.
pub fn create_proposal(
    creator: Identity,
    dao: &mut DAO,
    title: String,
    description: String,
    options: Vec<String>,
    start_time: i64,
    end_time: i64,
) -> (result: Result<Proposal, ErrorCode>)
    requires
        request_rejection(
            title@,
            description@,
            options.deep_view(),
            start_time as int,
            end_time as int,
        ) is None ==> old(dao).proposal_count < u64::MAX,
    ensures
        match create_proposal_outcome(
            old(dao)@,
            (ProposalRequest {
                creator,
                title: title@,
                description: description@,
                options: options.deep_view(),
                start_time: start_time as int,
                end_time: end_time as int,
            }),
        ) {
            Ok((updated, created)) => result is Ok && result->Ok_0@ == created && final(dao)@
                == updated,
            Err(e) => result == Err::<Proposal, ErrorCode>(e) && *final(dao) == *old(dao),
        },
        result matches Ok(proposal) ==> proposal.well_formed()
            && proposal.id == old(dao).proposal_count + 1
            && *final(dao) == (DAO { proposal_count: proposal.id, ..*old(dao) }),
{
    if let Some(e) = check_request(&title, &description, &options, start_time, end_time) {
        return Err(e);
    }
    dao.proposal_count = dao.proposal_count + 1;
    let vote_counts: Vec<u64> = vec![0u64; options.len()];
    let proposal = Proposal {
        id: dao.proposal_count,
        authority: creator,
        title,
        description,
        start_time,
        end_time,
        options,
        vote_counts,
        is_active: true,
    };
    assert(proposal@.vote_counts =~= Seq::new(proposal@.options.len(), |i: int| 0nat));
    Ok(proposal)
}

/// The outcome of a request to close: only the proposal's authority may
/// close it, and only after the window has passed. Closing changes nothing
/// but the flag, so closing a closed proposal succeeds and changes nothing.
pub open spec fn close_proposal_outcome(
    requester: Identity,
    proposal: ProposalView,
    now: int,
) -> Result<ProposalView, ErrorCode> {
    if requester != proposal.authority {
        Err(ErrorCode::Unauthorized)
    } else if now <= proposal.end_time {
        Err(ErrorCode::VotingNotEnded)
    } else {
        Ok(ProposalView { is_active: false, ..proposal })
    }
}

/// Closes `proposal` at time `now` on behalf of `requester`.
///
/// Whoever is not the proposal's authority is refused whatever the time,
/// and the authority is refused until the window has passed. A refusal
/// leaves the proposal as it was; success clears `is_active` and touches
/// nothing else.
pub fn close_proposal(requester: Identity, proposal: &mut Proposal, now: i64) -> (result: Result<
    (),
    ErrorCode,
>)
    ensures
        requester != old(proposal).authority ==> result == Err::<(), ErrorCode>(
            ErrorCode::Unauthorized,
        ) && *final(proposal) == *old(proposal),
        requester == old(proposal).authority && now <= old(proposal).end_time ==> result == Err::<
            (),
            ErrorCode,
        >(ErrorCode::VotingNotEnded) && *final(proposal) == *old(proposal),
        requester == old(proposal).authority && now > old(proposal).end_time ==> result is Ok
            && *final(proposal) == (Proposal { is_active: false, ..*old(proposal) }),
        match close_proposal_outcome(requester, old(proposal)@, now as int) {
            Ok(closed) => result is Ok && final(proposal)@ == closed,
            Err(e) => result == Err::<(), ErrorCode>(e) && *final(proposal) == *old(proposal),
        },
        old(proposal).well_formed() ==> final(proposal).well_formed(),
{
    if requester != proposal.authority {
        return Err(ErrorCode::Unauthorized);
    }
    if now <= proposal.end_time {
        return Err(ErrorCode::VotingNotEnded);
    }
    proposal.is_active = false;
    Ok(())
}

} // verus!
