use dao::governor::Governor;
use dao::types::{GovernorError, Proposal, ProposalVote, VoteType};

/// The governance token's account on the host ledger.
const TOKEN: u128 = 1;
/// A few distinct voter accounts.
const ALICE: u128 = 2;
const BOB: u128 = 3;
const DJANGO: u128 = 4;

fn create_contract(initial_balance: u128) -> Governor {
    Governor::new(TOKEN, 50, initial_balance)
}

#[test]
fn propose_works() {
    let mut governor = create_contract(1000);
    assert_eq!(
        governor.propose(DJANGO, 0, 1),
        Err(GovernorError::AmountShouldNotBeZero)
    );
    assert_eq!(
        governor.propose(DJANGO, 100, 0),
        Err(GovernorError::DurationError)
    );
    let result = governor.propose(DJANGO, 100, 1);
    assert_eq!(result, Ok(()));
    let proposal = governor.get_proposal(0).unwrap();
    let now = governor.now();
    assert_eq!(
        proposal,
        Proposal {
            to: DJANGO,
            amount: 100,
            vote_start: 0,
            vote_end: now + 1 * 60,
            executed: false,
        }
    );
    assert_eq!(governor.next_proposal_id(), 1);
}

#[test]
fn quorum_not_reached() {
    let mut governor = create_contract(1000);
    let result = governor.propose(2, 100, 1);
    assert_eq!(result, Ok(()));
    let execute = governor.execute(0);
    assert_eq!(execute, Err(GovernorError::QuorumNotReached));
}

#[test]
fn fresh_governor_is_empty() {
    let governor = create_contract(1000);
    assert_eq!(governor.next_proposal_id(), 0);
    assert_eq!(governor.get_proposal(0), None);
    assert_eq!(governor.get_tally(0), None);
    assert_eq!(governor.treasury(), 1000);
    assert_eq!(governor.now(), 0);
}

#[test]
fn propose_stamps_the_observed_clock() {
    let mut governor = create_contract(1000);
    governor.set_now(100);
    assert_eq!(governor.propose(DJANGO, 25, 5), Ok(()));
    let proposal = governor.get_proposal(0).unwrap();
    assert_eq!(
        proposal,
        Proposal {
            to: DJANGO,
            amount: 25,
            vote_start: 100,
            vote_end: 100 + 5 * 60,
            executed: false,
        }
    );
    assert_eq!(
        governor.get_tally(0),
        Some(ProposalVote {
            for_votes: 0,
            against_votes: 0,
        })
    );
    assert_eq!(governor.next_proposal_id(), 1);
}

#[test]
fn rejected_proposals_leave_the_counter() {
    let mut governor = create_contract(1000);
    assert_eq!(
        governor.propose(DJANGO, 0, 7),
        Err(GovernorError::AmountShouldNotBeZero)
    );
    assert_eq!(governor.next_proposal_id(), 0);
    assert_eq!(
        governor.propose(DJANGO, 100, 0),
        Err(GovernorError::DurationError)
    );
    assert_eq!(governor.next_proposal_id(), 0);
    // A zero amount is refused first, whatever the duration.
    assert_eq!(
        governor.propose(DJANGO, 0, 0),
        Err(GovernorError::AmountShouldNotBeZero)
    );
    assert_eq!(governor.next_proposal_id(), 0);
}

#[test]
fn second_vote_of_an_account_is_refused() {
    let mut governor = create_contract(1000);
    assert_eq!(governor.propose(DJANGO, 100, 1), Ok(()));
    assert_eq!(governor.vote(0, VoteType::For, ALICE), Ok(()));
    assert_eq!(
        governor.get_tally(0),
        Some(ProposalVote {
            for_votes: 1,
            against_votes: 0,
        })
    );
    assert_eq!(
        governor.vote(0, VoteType::Against, ALICE),
        Err(GovernorError::AlreadyVoted)
    );
    assert_eq!(
        governor.get_tally(0),
        Some(ProposalVote {
            for_votes: 1,
            against_votes: 0,
        })
    );
    // Another account still gets its one vote.
    assert_eq!(governor.vote(0, VoteType::Against, BOB), Ok(()));
    assert_eq!(
        governor.get_tally(0),
        Some(ProposalVote {
            for_votes: 1,
            against_votes: 1,
        })
    );
}

#[test]
fn vote_on_missing_proposal() {
    let mut governor = create_contract(1000);
    assert_eq!(
        governor.vote(0, VoteType::For, ALICE),
        Err(GovernorError::ProposalNotFound)
    );
    assert_eq!(governor.propose(DJANGO, 100, 1), Ok(()));
    assert_eq!(
        governor.vote(7, VoteType::For, ALICE),
        Err(GovernorError::ProposalNotFound)
    );
}

#[test]
fn vote_after_the_window_closed() {
    let mut governor = create_contract(1000);
    assert_eq!(governor.propose(DJANGO, 100, 1), Ok(()));
    // The window runs from second 0 up to, not through, second 60.
    governor.set_now(59);
    assert_eq!(governor.vote(0, VoteType::For, ALICE), Ok(()));
    governor.set_now(60);
    assert_eq!(
        governor.vote(0, VoteType::For, BOB),
        Err(GovernorError::VotePeriodEnded)
    );
    assert_eq!(
        governor.get_tally(0),
        Some(ProposalVote {
            for_votes: 1,
            against_votes: 0,
        })
    );
}

#[test]
fn quorum_failure_changes_nothing() {
    let mut governor = Governor::new(TOKEN, 2, 1000);
    assert_eq!(governor.propose(DJANGO, 100, 1), Ok(()));
    assert_eq!(governor.vote(0, VoteType::For, ALICE), Ok(()));
    assert_eq!(governor.execute(0), Err(GovernorError::QuorumNotReached));
    assert!(!governor.get_proposal(0).unwrap().executed);
    assert_eq!(governor.treasury(), 1000);
}

#[test]
fn majority_against_is_not_accepted() {
    let mut governor = Governor::new(TOKEN, 1, 1000);
    assert_eq!(governor.propose(DJANGO, 100, 1), Ok(()));
    assert_eq!(governor.vote(0, VoteType::For, ALICE), Ok(()));
    assert_eq!(governor.vote(0, VoteType::Against, BOB), Ok(()));
    assert_eq!(governor.vote(0, VoteType::Against, TOKEN), Ok(()));
    assert_eq!(governor.execute(0), Err(GovernorError::ProposalNotAccepted));
    assert!(!governor.get_proposal(0).unwrap().executed);
    assert_eq!(governor.treasury(), 1000);
}

#[test]
fn execute_disburses_exactly_once() {
    let mut governor = Governor::new(TOKEN, 2, 1000);
    assert_eq!(governor.propose(DJANGO, 100, 1), Ok(()));
    assert_eq!(governor.vote(0, VoteType::For, ALICE), Ok(()));
    assert_eq!(governor.vote(0, VoteType::For, BOB), Ok(()));
    assert_eq!(governor.execute(0), Ok(()));
    assert_eq!(governor.treasury(), 900);
    assert!(governor.get_proposal(0).unwrap().executed);
    assert_eq!(
        governor.execute(0),
        Err(GovernorError::ProposalAlreadyExecuted)
    );
    assert_eq!(governor.treasury(), 900);
}

#[test]
fn execute_on_missing_proposal() {
    let mut governor = create_contract(1000);
    assert_eq!(governor.execute(0), Err(GovernorError::ProposalNotFound));
}

#[test]
fn short_treasury_refuses_the_transfer() {
    let mut governor = Governor::new(TOKEN, 1, 40);
    assert_eq!(governor.propose(DJANGO, 100, 1), Ok(()));
    assert_eq!(governor.vote(0, VoteType::For, ALICE), Ok(()));
    assert_eq!(governor.execute(0), Err(GovernorError::TransferFailed));
    assert!(!governor.get_proposal(0).unwrap().executed);
    assert_eq!(governor.treasury(), 40);
}

#[test]
fn tallies_saturate_instead_of_wrapping() {
    let mut governor = Governor::new(TOKEN, 1, 1000);
    assert_eq!(governor.propose(DJANGO, 100, 1), Ok(()));
    for voter in 0..300u128 {
        assert_eq!(governor.vote(0, VoteType::For, 1000 + voter), Ok(()));
    }
    assert_eq!(
        governor.get_tally(0),
        Some(ProposalVote {
            for_votes: 255,
            against_votes: 0,
        })
    );
}

#[test]
fn ids_stay_dense_over_many_proposals() {
    let mut governor = create_contract(1000);
    assert_eq!(governor.propose(ALICE, 10, 1), Ok(()));
    assert_eq!(governor.propose(BOB, 20, 2), Ok(()));
    assert_eq!(governor.propose(DJANGO, 30, 3), Ok(()));
    assert_eq!(governor.next_proposal_id(), 3);
    for id in 0..3u64 {
        assert!(governor.get_proposal(id).is_some());
        assert!(governor.get_tally(id).is_some());
    }
    assert_eq!(governor.get_proposal(3), None);
    assert_eq!(governor.get_proposal(0).unwrap().to, ALICE);
    assert_eq!(governor.get_proposal(2).unwrap().amount, 30);
}

#[test]
fn quorum_scenario() {
    // Quorum 50, treasury 1000: a fresh proposal with no votes cannot run.
    let mut governor = create_contract(1000);
    assert_eq!(governor.propose(DJANGO, 100, 1), Ok(()));
    assert_eq!(governor.execute(0), Err(GovernorError::QuorumNotReached));
    assert!(!governor.get_proposal(0).unwrap().executed);
    assert_eq!(governor.treasury(), 1000);
}

#[test]
fn propose_scenario() {
    let mut governor = create_contract(1000);
    assert_eq!(
        governor.propose(DJANGO, 0, 1),
        Err(GovernorError::AmountShouldNotBeZero)
    );
    assert_eq!(
        governor.propose(DJANGO, 100, 0),
        Err(GovernorError::DurationError)
    );
    assert_eq!(governor.propose(DJANGO, 100, 1), Ok(()));
    assert_eq!(governor.next_proposal_id(), 1);
    assert_eq!(
        governor.get_proposal(0).unwrap().vote_end,
        governor.now() + 60
    );
}
