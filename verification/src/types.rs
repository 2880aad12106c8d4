//! The data the governor works on: accounts, balances, proposals, tallies,
//! vote choices and the error taxonomy.

use vstd::prelude::*;

verus! {

/// Identifies an account on the host ledger.
pub type AccountId = u128;

/// An amount of the native value the host ledger keeps.
pub type Balance = u128;

/// Identifies a proposal. Ids are dense and gapless: a governor that has
/// registered `n` proposals has used exactly the ids `0..n`.
pub type ProposalId = u64;

/// Proposal durations are given in minutes; the clock runs in seconds.
pub const SECONDS_PER_MINUTE: u64 = 60;

/// A voter's choice on a proposal.
#[derive(Clone, Copy, Debug, PartialEq, Eq, Structural)]
pub enum VoteType {
    For,
    Against,
}

/// Every recoverable outcome of a governor operation. Each is returned
/// before any state is mutated, so an error guarantees zero state change.
#[derive(Clone, Copy, Debug, PartialEq, Eq, Structural)]
pub enum GovernorError {
    /// `propose` was given a zero transfer amount.
    AmountShouldNotBeZero,
    /// `propose` was given a zero voting duration.
    DurationError,
    /// The given proposal id names no proposal.
    ProposalNotFound,
    /// The proposal's funds were already disbursed.
    ProposalAlreadyExecuted,
    /// The tally has more against-votes than for-votes.
    ProposalNotAccepted,
    /// The clock has reached the end of the proposal's voting window.
    VotePeriodEnded,
    /// The calling account already holds a vote receipt for this proposal.
    AlreadyVoted,
    /// The tally's for-votes fall short of the configured quorum.
    QuorumNotReached,
    /// The treasury does not hold the proposal's amount. Disbursement is
    /// refused whole: nothing is transferred and nothing is mutated.
    TransferFailed,
}

/// A pending request to transfer `amount` to `to`, gated by a vote that
/// runs from `vote_start` to `vote_end` (clock seconds). Immutable once
/// created, except for `executed`, which goes false to true exactly once.
#[derive(Clone, Copy, Debug, PartialEq, Eq, Structural)]
pub struct Proposal {
    pub to: AccountId,
    pub vote_start: u64,
    pub vote_end: u64,
    pub executed: bool,
    pub amount: Balance,
}

/// Running counts of For and Against votes for one proposal.
#[derive(Clone, Copy, Debug, PartialEq, Eq, Structural)]
pub struct ProposalVote {
    pub for_votes: u8,
    pub against_votes: u8,
}

/// A counter one higher, capped at the counter's width: tallies saturate
/// rather than wrap when more accounts vote than the counter can hold.
pub open spec fn saturating_inc(x: u8) -> u8 {
    if x == u8::MAX {
        u8::MAX
    } else {
        (x + 1) as u8
    }
}

/// The tally after one more vote of the given kind.
pub open spec fn tally_after(t: ProposalVote, v: VoteType) -> ProposalVote {
    match v {
        VoteType::For => ProposalVote {
            for_votes: saturating_inc(t.for_votes),
            against_votes: t.against_votes,
        },
        VoteType::Against => ProposalVote {
            for_votes: t.for_votes,
            against_votes: saturating_inc(t.against_votes),
        },
    }
}

/// The proposal that `propose(to, amount, duration)` registers when the
/// clock reads `now`.
pub open spec fn fresh_proposal(to: AccountId, amount: Balance, duration: u64, now: u64) -> Proposal {
    Proposal {
        to,
        vote_start: now,
        vote_end: (now + duration * SECONDS_PER_MINUTE) as u64,
        executed: false,
        amount,
    }
}

/// The tally every proposal starts with.
pub open spec fn zero_tally() -> ProposalVote {
    ProposalVote { for_votes: 0, against_votes: 0 }
}

/// The same proposal with its funds disbursed.
pub open spec fn mark_executed(p: Proposal) -> Proposal {
    Proposal {
        to: p.to,
        vote_start: p.vote_start,
        vote_end: p.vote_end,
        executed: true,
        amount: p.amount,
    }
}

} // verus!
