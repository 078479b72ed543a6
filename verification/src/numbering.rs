//! How an organisation numbers its proposals.
//!
//! An organisation hands out ids from its counter, so the proposals created
//! under it are numbered in the order of their creation, from one past the
//! counter's first value, without gaps and without reuse.

use vstd::prelude::*;
use crate::dao::DaoView;
use crate::proposal::{create_proposal_outcome, ProposalRequest, ProposalView};

verus! {

/// The organisation after a run of requests, and the proposals that the run
/// created, oldest first. A refused request leaves no trace.
pub open spec fn create_all(dao: DaoView, requests: Seq<ProposalRequest>) -> (
    DaoView,
    Seq<ProposalView>,
)
    decreases requests.len(),
{
    if requests.len() == 0 {
        (dao, Seq::empty())
    } else {
        let (before, created) = create_all(dao, requests.drop_last());
        match create_proposal_outcome(before, requests.last()) {
            Ok((after, proposal)) => (after, created.push(proposal)),
            Err(_) => (before, created),
        }
    }
}

/// The requests of a run that are accepted, in their order.
pub open spec fn accepted(requests: Seq<ProposalRequest>) -> Seq<ProposalRequest> {
    requests.filter(|request: ProposalRequest| request.rejection() is None)
}

/// A run of requests creates one proposal for each accepted request, in the
/// order of the requests, and numbers them consecutively from one past the
/// counter's value before the run. Afterwards the counter is the last id
/// handed out, and nothing else in the organisation has changed.
pub proof fn lemma_ids_follow_creation_order(dao: DaoView, requests: Seq<ProposalRequest>)
    ensures
        create_all(dao, requests).1.len() == accepted(requests).len(),
        create_all(dao, requests).0 == (DaoView {
            proposal_count: dao.proposal_count + accepted(requests).len(),
            ..dao
        }),
        forall|i: int|
            0 <= i < accepted(requests).len() ==> #[trigger] create_all(dao, requests).1[i]
                == accepted(requests)[i].proposal((dao.proposal_count + i + 1) as nat),
        forall|i: int|
            0 <= i < create_all(dao, requests).1.len() ==> (#[trigger] create_all(
                dao,
                requests,
            ).1[i]).id == dao.proposal_count + i + 1,
    decreases requests.len(),
{
    reveal(Seq::filter);
    if requests.len() > 0 {
        lemma_ids_follow_creation_order(dao, requests.drop_last());
    }
}

/// Under an organisation that has no proposals yet, the `n` proposals that
/// a run creates carry the ids 1 to `n` in the order of their creation.
pub proof fn lemma_first_ids_count_from_one(dao: DaoView, requests: Seq<ProposalRequest>)
    requires
        dao.proposal_count == 0,
    ensures
        create_all(dao, requests).0.proposal_count == create_all(dao, requests).1.len(),
        forall|i: int|
            0 <= i < create_all(dao, requests).1.len() ==> (#[trigger] create_all(
                dao,
                requests,
            ).1[i]).id == i + 1,
{
    lemma_ids_follow_creation_order(dao, requests);
}

} // verus!
