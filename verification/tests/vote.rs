use std::collections::HashMap;
use voting_dao::dao::create_dao;
use voting_dao::error::ErrorCode;
use voting_dao::identity::Identity;
use voting_dao::proposal::{close_proposal, create_proposal, Proposal};
use voting_dao::vote::{cast_vote, Vote};

fn identity(tag: u8) -> Identity {
    Identity { bytes: [tag; 32] }
}

fn open_poll(option_count: usize) -> Proposal {
    let mut dao = create_dao(identity(1), "Guild".to_string(), String::new()).unwrap();
    let options = (0..option_count).map(|i| format!("option {}", i)).collect();
    create_proposal(identity(1), &mut dao, "t".to_string(), "d".to_string(), options, 100, 200)
        .unwrap()
}

#[test]
fn first_vote_is_counted_and_recorded() {
    let mut proposal = open_poll(3);
    let before = proposal.clone();
    let record = cast_vote(identity(5), &mut proposal, None, 2, 150);
    assert_eq!(record, Ok(Vote { has_voted: true, option_index: 2 }));
    assert_eq!(proposal, Proposal { vote_counts: vec![0, 0, 1], ..before });
}

#[test]
fn an_unused_record_counts_as_no_record() {
    let mut proposal = open_poll(2);
    let unused = Vote { has_voted: false, option_index: 0 };
    let record = cast_vote(identity(5), &mut proposal, Some(unused), 1, 150);
    assert_eq!(record, Ok(Vote { has_voted: true, option_index: 1 }));
    assert_eq!(proposal.vote_counts, vec![0, 1]);
}

#[test]
fn votes_at_both_ends_of_the_window_count() {
    let mut proposal = open_poll(2);
    assert!(cast_vote(identity(5), &mut proposal, None, 0, 100).is_ok());
    assert!(cast_vote(identity(6), &mut proposal, None, 0, 200).is_ok());
    assert_eq!(proposal.vote_counts, vec![2, 0]);
}

#[test]
fn votes_before_the_window_are_refused() {
    let mut proposal = open_poll(2);
    let before = proposal.clone();
    for now in [i64::MIN, -1, 0, 99] {
        assert_eq!(
            cast_vote(identity(5), &mut proposal, None, 0, now),
            Err(ErrorCode::VotingNotStarted)
        );
        assert_eq!(proposal, before);
    }
}

#[test]
fn votes_after_the_window_are_refused() {
    let mut proposal = open_poll(2);
    let before = proposal.clone();
    for now in [201, 1000, i64::MAX] {
        assert_eq!(cast_vote(identity(5), &mut proposal, None, 0, now), Err(ErrorCode::VotingEnded));
        assert_eq!(proposal, before);
    }
}

#[test]
fn votes_outside_the_window_fail_whatever_else_holds() {
    let mut proposal = open_poll(2);
    cast_vote(identity(5), &mut proposal, None, 0, 150).unwrap();
    let before = proposal.clone();
    let records = [
        None,
        Some(Vote { has_voted: false, option_index: 0 }),
        Some(Vote { has_voted: true, option_index: 1 }),
    ];
    for now in [99, 201] {
        for option_index in [0u8, 1, 2, 255] {
            for existing in records {
                assert!(cast_vote(identity(6), &mut proposal, existing, option_index, now).is_err());
                assert_eq!(proposal.vote_counts, before.vote_counts);
            }
        }
    }
}

#[test]
fn options_that_do_not_exist_are_refused() {
    let mut proposal = open_poll(3);
    let before = proposal.clone();
    for option_index in [3u8, 4, 10, 255] {
        assert_eq!(
            cast_vote(identity(5), &mut proposal, None, option_index, 150),
            Err(ErrorCode::InvalidOptionIndex)
        );
        assert_eq!(proposal, before);
    }
}

#[test]
fn the_last_of_ten_options_can_be_chosen() {
    let mut proposal = open_poll(10);
    assert!(cast_vote(identity(5), &mut proposal, None, 9, 150).is_ok());
    assert_eq!(proposal.vote_counts, vec![0, 0, 0, 0, 0, 0, 0, 0, 0, 1]);
    assert_eq!(
        cast_vote(identity(6), &mut proposal, None, 10, 150),
        Err(ErrorCode::InvalidOptionIndex)
    );
}

#[test]
fn second_vote_is_refused_and_not_counted() {
    let mut proposal = open_poll(2);
    let record = cast_vote(identity(5), &mut proposal, None, 1, 120).unwrap();
    let once = proposal.clone();
    assert_eq!(once.vote_counts, vec![0, 1]);
    // The same choice again, and then the other one.
    assert_eq!(
        cast_vote(identity(5), &mut proposal, Some(record), 1, 130),
        Err(ErrorCode::AlreadyVoted)
    );
    assert_eq!(
        cast_vote(identity(5), &mut proposal, Some(record), 0, 130),
        Err(ErrorCode::AlreadyVoted)
    );
    assert_eq!(proposal, once);
    assert_eq!(proposal.vote_counts.iter().sum::<u64>(), 1);
}

#[test]
fn second_vote_after_the_window_fails_for_the_window() {
    let mut proposal = open_poll(2);
    let record = cast_vote(identity(5), &mut proposal, None, 1, 120).unwrap();
    let once = proposal.clone();
    assert_eq!(
        cast_vote(identity(5), &mut proposal, Some(record), 1, 201),
        Err(ErrorCode::VotingEnded)
    );
    assert_eq!(proposal, once);
}

#[test]
fn closed_proposals_take_no_votes() {
    let mut proposal = open_poll(2);
    close_proposal(identity(1), &mut proposal, 201).unwrap();
    let closed = proposal.clone();
    for now in [99, 150, 201, 205] {
        assert_eq!(
            cast_vote(identity(5), &mut proposal, None, 0, now),
            Err(ErrorCode::ProposalInactive)
        );
        assert_eq!(proposal, closed);
    }
}

#[test]
fn vote_checks_run_in_order() {
    let voted = Some(Vote { has_voted: true, option_index: 0 });

    // A closed proposal refuses before anything else is looked at.
    let mut closed = open_poll(2);
    closed.is_active = false;
    assert_eq!(
        cast_vote(identity(5), &mut closed, voted, 9, 99),
        Err(ErrorCode::ProposalInactive)
    );

    // Then the window decides, before the option and the record.
    let mut proposal = open_poll(2);
    assert_eq!(
        cast_vote(identity(5), &mut proposal, voted, 9, 99),
        Err(ErrorCode::VotingNotStarted)
    );
    assert_eq!(cast_vote(identity(5), &mut proposal, voted, 9, 201), Err(ErrorCode::VotingEnded));

    // Then the option, before the record.
    assert_eq!(
        cast_vote(identity(5), &mut proposal, voted, 9, 150),
        Err(ErrorCode::InvalidOptionIndex)
    );

    // The record comes last.
    assert_eq!(cast_vote(identity(5), &mut proposal, voted, 1, 150), Err(ErrorCode::AlreadyVoted));
    assert_eq!(proposal.vote_counts, vec![0, 0]);
}

#[test]
fn tallies_sum_to_the_number_of_voters_who_voted() {
    let mut proposal = open_poll(3);
    let mut records: HashMap<Identity, Vote> = HashMap::new();
    // (voter, option, time): repeated voters, bad options and bad times among them.
    let requests: [(u8, u8, i64); 12] = [
        (10, 0, 100),
        (11, 1, 110),
        (10, 2, 120),
        (12, 3, 130),
        (12, 2, 140),
        (13, 1, 99),
        (13, 1, 150),
        (14, 0, 201),
        (11, 1, 160),
        (15, 2, 200),
        (16, 0, 170),
        (10, 0, 180),
    ];
    for (tag, option_index, now) in requests {
        let voter = identity(tag);
        let existing = records.get(&voter).copied();
        let before = proposal.clone();
        match cast_vote(voter, &mut proposal, existing, option_index, now) {
            Ok(record) => {
                records.insert(voter, record);
            }
            Err(_) => assert_eq!(proposal, before),
        }
        let voted = records.values().filter(|record| record.has_voted).count() as u64;
        assert_eq!(proposal.vote_counts.iter().sum::<u64>(), voted);
        for (option, tally) in proposal.vote_counts.iter().enumerate() {
            let chosen = records
                .values()
                .filter(|record| record.has_voted && record.option_index as usize == option)
                .count() as u64;
            assert_eq!(*tally, chosen);
        }
    }
    assert_eq!(proposal.vote_counts, vec![2, 2, 2]);
    assert_eq!(records.len(), 6);
}

#[test]
fn a_record_once_written_is_never_replaced() {
    let mut proposal = open_poll(2);
    let voter = identity(5);
    let record = cast_vote(voter, &mut proposal, None, 1, 150).unwrap();
    assert!(record.has_voted);
    for option_index in [0u8, 1] {
        for now in [150, 200] {
            assert!(cast_vote(voter, &mut proposal, Some(record), option_index, now).is_err());
        }
    }
    assert_eq!(record, Vote { has_voted: true, option_index: 1 });
}

#[test]
fn checking_a_vote_counts_nothing_and_agrees_with_casting() {
    let voted = Some(Vote { has_voted: true, option_index: 0 });
    let cases: [(Option<Vote>, u8, i64, Option<ErrorCode>); 6] = [
        (None, 0, 150, None),
        (None, 1, 99, Some(ErrorCode::VotingNotStarted)),
        (None, 1, 201, Some(ErrorCode::VotingEnded)),
        (None, 2, 150, Some(ErrorCode::InvalidOptionIndex)),
        (voted, 1, 150, Some(ErrorCode::AlreadyVoted)),
        (Some(Vote { has_voted: false, option_index: 1 }), 1, 150, None),
    ];
    for (existing, option_index, now, expected) in cases {
        let mut proposal = open_poll(2);
        let before = proposal.clone();
        assert_eq!(voting_dao::vote::check_vote(&proposal, existing, option_index, now), expected);
        assert_eq!(proposal, before);
        let cast = cast_vote(identity(5), &mut proposal, existing, option_index, now);
        assert_eq!(cast.err(), expected);
    }
    let mut closed = open_poll(2);
    closed.is_active = false;
    assert_eq!(
        voting_dao::vote::check_vote(&closed, None, 0, 150),
        Some(ErrorCode::ProposalInactive)
    );
}

#[test]
fn a_tally_just_below_the_largest_number_still_takes_a_vote() {
    let mut proposal = open_poll(2);
    proposal.vote_counts[1] = u64::MAX - 1;
    assert!(cast_vote(identity(5), &mut proposal, None, 1, 150).is_ok());
    assert_eq!(proposal.vote_counts, vec![0, u64::MAX]);
}
