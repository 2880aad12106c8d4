//! The governor: the proposal/voting/execution state machine.
//!
//! The governor owns four registers — the proposal list, one tally per
//! proposal (keyed by proposal id), the vote receipts, and the treasury —
//! together with its immutable configuration and its view of the host
//! clock. Every mutation runs through `propose`, `vote` or `execute`, and
//! each of those either commits whole or returns an error having changed
//! nothing.

use vstd::prelude::*;

use crate::types::{
    AccountId, Balance, GovernorError, Proposal, ProposalId, ProposalVote, VoteType,
    fresh_proposal, mark_executed, tally_after, zero_tally, SECONDS_PER_MINUTE,
};

verus! {

pub struct Governor {
    /// Proposal with id `i` sits at position `i`; ids are dense.
    proposals: Vec<Proposal>,
    /// Tally for proposal `i` sits at position `i`: one tally per proposal.
    tallies: Vec<ProposalVote>,
    /// Vote receipts: `(p, a)` is present exactly when account `a` has
    /// voted on proposal `p`. Receipts are never removed.
    votes: Vec<(ProposalId, AccountId)>,
    /// The governance token's account, held as inert configuration.
    governance_token: AccountId,
    /// Minimum for-vote count a proposal needs before execution.
    quorum: u8,
    /// The native value the governor holds and may disburse.
    treasury: Balance,
    /// The governor's view of the host clock, in seconds.
    block_time: u64,
}

impl Governor {
    /// The stored proposals, in id order.
    pub closed spec fn spec_proposals(&self) -> Seq<Proposal> {
        self.proposals@
    }

    /// The stored tallies, in the same id order as the proposals.
    pub closed spec fn spec_tallies(&self) -> Seq<ProposalVote> {
        self.tallies@
    }

    /// The vote receipts, in the order they were granted.
    pub closed spec fn spec_receipts(&self) -> Seq<(ProposalId, AccountId)> {
        self.votes@
    }

    /// The configured governance-token account.
    pub closed spec fn spec_governance_token(&self) -> AccountId {
        self.governance_token
    }

    /// The configured quorum threshold.
    pub closed spec fn spec_quorum(&self) -> u8 {
        self.quorum
    }

    /// The value the treasury currently holds.
    pub closed spec fn spec_treasury(&self) -> Balance {
        self.treasury
    }

    /// The clock value the governor last observed.
    pub closed spec fn spec_now(&self) -> u64 {
        self.block_time
    }

    /// Account `a` holds a vote receipt for proposal `id`.
    pub open spec fn spec_has_voted(&self, id: ProposalId, a: AccountId) -> bool {
        self.spec_receipts().contains((id, a))
    }

    /// Well-formedness: a tally exists if and only if its proposal does.
    pub open spec fn wf(&self) -> bool {
        self.spec_tallies().len() == self.spec_proposals().len()
    }

    /// The proposal exists and its funds were not yet disbursed.
    pub open spec fn spec_pending(&self, id: ProposalId) -> bool {
        id < self.spec_proposals().len() && !self.spec_proposals()[id as int].executed
    }

    /// The voting window of proposal `id` is still open at the observed
    /// clock: the window closes the moment the clock reaches `vote_end`.
    pub open spec fn spec_window_open(&self, id: ProposalId) -> bool {
        self.spec_now() < self.spec_proposals()[id as int].vote_end
    }

    /// The tally carries proposal `id`: no majority against, and the
    /// for-votes reach the quorum.
    pub open spec fn spec_accepted(&self, id: ProposalId) -> bool {
        &&& self.spec_tallies()[id as int].for_votes
            >= self.spec_tallies()[id as int].against_votes
        &&& self.spec_tallies()[id as int].for_votes >= self.spec_quorum()
    }
}

/// The two governors hold the same proposals, tallies and receipts.
pub open spec fn same_ledger(pre: Governor, post: Governor) -> bool {
    &&& post.spec_proposals() == pre.spec_proposals()
    &&& post.spec_tallies() == pre.spec_tallies()
    &&& post.spec_receipts() == pre.spec_receipts()
}

/// The two governors hold the same configuration.
pub open spec fn same_config(pre: Governor, post: Governor) -> bool {
    &&& post.spec_governance_token() == pre.spec_governance_token()
    &&& post.spec_quorum() == pre.spec_quorum()
}

/// Nothing about the governor differs between the two states: errors
/// guarantee exactly this.
pub open spec fn same_state(pre: Governor, post: Governor) -> bool {
    &&& same_ledger(pre, post)
    &&& same_config(pre, post)
    &&& post.spec_treasury() == pre.spec_treasury()
    &&& post.spec_now() == pre.spec_now()
}

impl Governor {
    /// Creates a governor with no proposals, no receipts, the given
    /// configuration and the given opening treasury endowment. The clock
    /// starts at zero until the host reports a later time.
    pub fn new(governance_token: AccountId, quorum: u8, endowment: Balance) -> (g: Governor)
        ensures
            g.wf(),
            g.spec_proposals() == Seq::<Proposal>::empty(),
            g.spec_tallies() == Seq::<ProposalVote>::empty(),
            g.spec_receipts() == Seq::<(ProposalId, AccountId)>::empty(),
            g.spec_governance_token() == governance_token,
            g.spec_quorum() == quorum,
            g.spec_treasury() == endowment,
            g.spec_now() == 0,
    {
        Governor {
            proposals: Vec::new(),
            tallies: Vec::new(),
            votes: Vec::new(),
            governance_token,
            quorum,
            treasury: endowment,
            block_time: 0,
        }
    }

    /// Takes the current block timestamp from the host. The ledger, the
    /// configuration and the treasury are untouched.
    pub fn set_now(&mut self, now: u64)
        ensures
            final(self).spec_now() == now,
            same_ledger(*old(self), *final(self)),
            same_config(*old(self), *final(self)),
            final(self).spec_treasury() == old(self).spec_treasury(),
    {
        self.block_time = now;
    }

    /// The clock value the governor last observed.
    pub fn now(&self) -> (t: u64)
        ensures
            t == self.spec_now(),
    {
        self.block_time
    }

    /// The value the treasury currently holds.
    pub fn treasury(&self) -> (b: Balance)
        ensures
            b == self.spec_treasury(),
    {
        self.treasury
    }

    /// The next unused proposal id, which is also the number of proposals
    /// registered so far.
    pub fn next_proposal_id(&self) -> (id: u64)
        ensures
            id == self.spec_proposals().len(),
    {
        self.proposals.len() as u64
    }

    /// The stored proposal under `id`, or nothing when `id` was never used.
    pub fn get_proposal(&self, id: ProposalId) -> (r: Option<Proposal>)
        ensures
            id < self.spec_proposals().len() ==> r == Some(self.spec_proposals()[id as int]),
            id >= self.spec_proposals().len() ==> r == None::<Proposal>,
    {
        if id < self.proposals.len() as u64 {
            Some(self.proposals[id as usize])
        } else {
            None
        }
    }

    /// The running tally under `id`, or nothing when `id` was never used.
    pub fn get_tally(&self, id: ProposalId) -> (r: Option<ProposalVote>)
        requires
            self.wf(),
        ensures
            id < self.spec_proposals().len() ==> r == Some(self.spec_tallies()[id as int]),
            id >= self.spec_proposals().len() ==> r == None::<ProposalVote>,
    {
        if id < self.tallies.len() as u64 {
            Some(self.tallies[id as usize])
        } else {
            None
        }
    }

    /// Whether account `a` holds a vote receipt for proposal `id`.
    pub fn has_voted(&self, id: ProposalId, a: AccountId) -> (r: bool)
        ensures
            r == self.spec_has_voted(id, a),
    {
        let n = self.votes.len();
        let mut i: usize = 0;
        while i < n
            invariant
                n == self.spec_receipts().len(),
                i <= n,
                forall|j: int| 0 <= j < i ==> self.spec_receipts()[j] != (id, a),
            decreases n - i,
        {
            let v = self.votes[i];
            if v.0 == id && v.1 == a {
                assert(self.spec_receipts()[i as int] == (id, a));
                return true;
            }
            i += 1;
        }
        assert(!self.spec_receipts().contains((id, a)));
        false
    }

    /// Registers a fund-transfer proposal: `amount` to `to`, with a voting
    /// window of `duration` minutes starting at the observed clock.
    ///
    /// A zero amount is refused before a zero duration is; either refusal
    /// changes nothing, so the proposal counter moves exactly when a
    /// proposal is created. On success the proposal and its zeroed tally
    /// are appended together, and the new id is the counter's old value.
    pub fn propose(&mut self, to: AccountId, amount: Balance, duration: u64) -> (result: Result<
        (),
        GovernorError,
    >)
        requires
            old(self).wf(),
            amount != 0 && duration != 0 ==> old(self).spec_now() + duration * SECONDS_PER_MINUTE
                <= u64::MAX,
        ensures
            final(self).wf(),
            amount == 0 ==> result == Err::<(), GovernorError>(GovernorError::AmountShouldNotBeZero)
                && same_state(*old(self), *final(self)),
            amount != 0 && duration == 0 ==> result == Err::<(), GovernorError>(
                GovernorError::DurationError,
            ) && same_state(*old(self), *final(self)),
            amount != 0 && duration != 0 ==> {
                &&& result == Ok::<(), GovernorError>(())
                &&& final(self).spec_proposals() == old(self).spec_proposals().push(
                    fresh_proposal(to, amount, duration, old(self).spec_now()),
                )
                &&& final(self).spec_proposals().len() == old(self).spec_proposals().len() + 1
                &&& final(self).spec_tallies() == old(self).spec_tallies().push(zero_tally())
                &&& final(self).spec_receipts() == old(self).spec_receipts()
                &&& same_config(*old(self), *final(self))
                &&& final(self).spec_treasury() == old(self).spec_treasury()
                &&& final(self).spec_now() == old(self).spec_now()
            },
    {
        if amount == 0 {
            return Err(GovernorError::AmountShouldNotBeZero);
        }
        if duration == 0 {
            return Err(GovernorError::DurationError);
        }
        let proposal = Proposal {
            to,
            vote_start: self.block_time,
            vote_end: self.block_time + duration * SECONDS_PER_MINUTE,
            executed: false,
            amount,
        };
        self.proposals.push(proposal);
        self.tallies.push(ProposalVote { for_votes: 0, against_votes: 0 });
        Ok(())
    }

    /// Casts `caller`'s vote on proposal `proposal_id`.
    ///
    /// An account that already holds a receipt is refused first; an unused
    /// id second; a closed voting window third — the window closes the
    /// moment the clock reaches `vote_end`, and the refusal is
    /// `VotePeriodEnded`, the variant set aside for exactly that. Any
    /// refusal changes nothing. On success the receipt is granted — it is
    /// permanent, so the same account is refused ever after — and the
    /// chosen side of the tally is counted up by one, saturating at the
    /// counter's width rather than wrapping.
    pub fn vote(
        &mut self,
        proposal_id: ProposalId,
        vote: VoteType,
        caller: AccountId,
    ) -> (result: Result<(), GovernorError>)
        requires
            old(self).wf(),
        ensures
            final(self).wf(),
            old(self).spec_has_voted(proposal_id, caller) ==> result == Err::<(), GovernorError>(
                GovernorError::AlreadyVoted,
            ) && same_state(*old(self), *final(self)),
            !old(self).spec_has_voted(proposal_id, caller) && proposal_id >= old(
                self,
            ).spec_proposals().len() ==> result == Err::<(), GovernorError>(
                GovernorError::ProposalNotFound,
            ) && same_state(*old(self), *final(self)),
            !old(self).spec_has_voted(proposal_id, caller) && proposal_id < old(
                self,
            ).spec_proposals().len() && !old(self).spec_window_open(proposal_id) ==> result
                == Err::<(), GovernorError>(GovernorError::VotePeriodEnded) && same_state(
                *old(self),
                *final(self),
            ),
            !old(self).spec_has_voted(proposal_id, caller) && proposal_id < old(
                self,
            ).spec_proposals().len() && old(self).spec_window_open(proposal_id) ==> {
                &&& result == Ok::<(), GovernorError>(())
                &&& final(self).spec_receipts() == old(self).spec_receipts().push(
                    (proposal_id, caller),
                )
                &&& final(self).spec_has_voted(proposal_id, caller)
                &&& final(self).spec_tallies() == old(self).spec_tallies().update(
                    proposal_id as int,
                    tally_after(old(self).spec_tallies()[proposal_id as int], vote),
                )
                &&& final(self).spec_proposals() == old(self).spec_proposals()
                &&& same_config(*old(self), *final(self))
                &&& final(self).spec_treasury() == old(self).spec_treasury()
                &&& final(self).spec_now() == old(self).spec_now()
            },
            // Receipts are permanent: whoever had voted still has.
            forall|p: ProposalId, a: AccountId|
                old(self).spec_has_voted(p, a) ==> #[trigger] final(self).spec_has_voted(p, a),
            // Voting never touches the proposals, so executed flags stand.
            final(self).spec_proposals() == old(self).spec_proposals(),
    {
        if self.has_voted(proposal_id, caller) {
            return Err(GovernorError::AlreadyVoted);
        }
        if proposal_id >= self.proposals.len() as u64 {
            return Err(GovernorError::ProposalNotFound);
        }
        let idx = proposal_id as usize;
        let proposal = self.proposals[idx];
        if self.block_time >= proposal.vote_end {
            return Err(GovernorError::VotePeriodEnded);
        }
        self.votes.push((proposal_id, caller));
        let tally = self.tallies[idx];
        let new_tally = match vote {
            VoteType::For => ProposalVote {
                for_votes: if tally.for_votes < u8::MAX {
                    tally.for_votes + 1
                } else {
                    tally.for_votes
                },
                against_votes: tally.against_votes,
            },
            VoteType::Against => ProposalVote {
                for_votes: tally.for_votes,
                against_votes: if tally.against_votes < u8::MAX {
                    tally.against_votes + 1
                } else {
                    tally.against_votes
                },
            },
        };
        self.tallies[idx] = new_tally;
        proof {
            assert(self.spec_receipts()[old(self).spec_receipts().len() as int] == (
                proposal_id,
                caller,
            ));
            assert forall|p: ProposalId, a: AccountId|
                old(self).spec_has_voted(p, a) implies self.spec_has_voted(p, a) by {
                let j = choose|j: int|
                    0 <= j < old(self).spec_receipts().len() && old(self).spec_receipts()[j] == (
                    p,
                    a,
                    );
                assert(self.spec_receipts()[j] == (p, a));
            };
        }
        Ok(())
    }

    /// Disburses an accepted proposal's funds and marks it executed.
    ///
    /// The refusals run in order — unused id, already executed, more
    /// against- than for-votes, for-votes short of the quorum, treasury
    /// short of the amount — and every one of them changes nothing. Only
    /// when all five pass does the treasury drop by exactly the
    /// proposal's amount, for the recipient's benefit, and the executed
    /// flag flip to true; that flag never reverts, so the disbursement
    /// happens at most once per proposal.
    pub fn execute(&mut self, proposal_id: ProposalId) -> (result: Result<(), GovernorError>)
        requires
            old(self).wf(),
        ensures
            final(self).wf(),
            proposal_id >= old(self).spec_proposals().len() ==> result == Err::<(), GovernorError>(
                GovernorError::ProposalNotFound,
            ) && same_state(*old(self), *final(self)),
            proposal_id < old(self).spec_proposals().len() && old(self).spec_proposals()[
                proposal_id as int].executed ==> result == Err::<(), GovernorError>(
                GovernorError::ProposalAlreadyExecuted,
            ) && same_state(*old(self), *final(self)),
            old(self).spec_pending(proposal_id) && old(self).spec_tallies()[
                proposal_id as int].for_votes < old(self).spec_tallies()[
                proposal_id as int].against_votes ==> result == Err::<(), GovernorError>(
                GovernorError::ProposalNotAccepted,
            ) && same_state(*old(self), *final(self)),
            old(self).spec_pending(proposal_id) && old(self).spec_tallies()[
                proposal_id as int].for_votes >= old(self).spec_tallies()[
                proposal_id as int].against_votes && old(self).spec_tallies()[
                proposal_id as int].for_votes < old(self).spec_quorum() ==> result == Err::<
                (),
                GovernorError,
            >(GovernorError::QuorumNotReached) && same_state(*old(self), *final(self)),
            old(self).spec_pending(proposal_id) && old(self).spec_accepted(proposal_id) && old(
                self,
            ).spec_treasury() < old(self).spec_proposals()[proposal_id as int].amount ==> result
                == Err::<(), GovernorError>(GovernorError::TransferFailed) && same_state(
                *old(self),
                *final(self),
            ),
            old(self).spec_pending(proposal_id) && old(self).spec_accepted(proposal_id) && old(
                self,
            ).spec_treasury() >= old(self).spec_proposals()[proposal_id as int].amount ==> {
                &&& result == Ok::<(), GovernorError>(())
                &&& final(self).spec_treasury() == old(self).spec_treasury() - old(
                    self,
                ).spec_proposals()[proposal_id as int].amount
                &&& final(self).spec_proposals() == old(self).spec_proposals().update(
                    proposal_id as int,
                    mark_executed(old(self).spec_proposals()[proposal_id as int]),
                )
                &&& final(self).spec_proposals()[proposal_id as int].executed
                &&& final(self).spec_tallies() == old(self).spec_tallies()
                &&& final(self).spec_receipts() == old(self).spec_receipts()
                &&& same_config(*old(self), *final(self))
                &&& final(self).spec_now() == old(self).spec_now()
            },
            // Execution is irreversible: whatever was executed stays so.
            forall|i: int|
                0 <= i < old(self).spec_proposals().len() && old(self).spec_proposals()[i].executed
                    ==> #[trigger] final(self).spec_proposals()[i].executed,
            // Receipts are permanent here too.
            final(self).spec_receipts() == old(self).spec_receipts(),
    {
        if proposal_id >= self.proposals.len() as u64 {
            return Err(GovernorError::ProposalNotFound);
        }
        let idx = proposal_id as usize;
        let proposal = self.proposals[idx];
        if proposal.executed {
            return Err(GovernorError::ProposalAlreadyExecuted);
        }
        let tally = self.tallies[idx];
        if tally.for_votes < tally.against_votes {
            return Err(GovernorError::ProposalNotAccepted);
        }
        if tally.for_votes < self.quorum {
            return Err(GovernorError::QuorumNotReached);
        }
        // The transfer comes before the flag: a refused transfer must
        // leave the flag untouched.
        if self.treasury < proposal.amount {
            return Err(GovernorError::TransferFailed);
        }
        self.treasury = self.treasury - proposal.amount;
        self.proposals[idx] = Proposal {
            to: proposal.to,
            vote_start: proposal.vote_start,
            vote_end: proposal.vote_end,
            executed: true,
            amount: proposal.amount,
        };
        Ok(())
    }
}

} // verus!
