use vstd::prelude::*;
use crate::error::ErrorCode;
use crate::state::{
    same_bytes, Bytes32, InitProposal, Manager, Proposal, TransferChecked, TALLY_PASSED,
};

verus! {

/// Whether a revealed tally may settle: enough votes were cast, and the share of yes votes
/// reaches `threshold` percent. The percentage is compared as `yes * 100 >= total * threshold`,
/// in whole numbers; a sum or product beyond 64 bits is an error, not a wrap-around.
pub open spec fn tally_verdict(
    yes_votes: u64,
    no_votes: u64,
    threshold: u64,
    quorum: u64,
) -> Result<(), ErrorCode> {
    let total = yes_votes + no_votes;
    if total > u64::MAX {
        Err(ErrorCode::ArithmeticOverflow)
    } else if total < quorum {
        Err(ErrorCode::QuorumNotMet)
    } else if yes_votes * 100 > u64::MAX || total * threshold > u64::MAX {
        Err(ErrorCode::ArithmeticOverflow)
    } else if yes_votes * 100 < total * threshold {
        Err(ErrorCode::MajorityNotMet)
    } else {
        Ok(())
    }
}

/// Checks a revealed tally against quorum and threshold.
pub fn check_tally(yes_votes: u64, no_votes: u64, threshold: u64, quorum: u64) -> (result: Result<
    (),
    ErrorCode,
>)
    ensures
        result == tally_verdict(yes_votes, no_votes, threshold, quorum),
{
    let total = match yes_votes.checked_add(no_votes) {
        Some(total) => total,
        None => {
            return Err(ErrorCode::ArithmeticOverflow);
        },
    };
    if total < quorum {
        return Err(ErrorCode::QuorumNotMet);
    }
    let lhs = match yes_votes.checked_mul(100) {
        Some(lhs) => lhs,
        None => {
            return Err(ErrorCode::ArithmeticOverflow);
        },
    };
    let rhs = match total.checked_mul(threshold) {
        Some(rhs) => rhs,
        None => {
            return Err(ErrorCode::ArithmeticOverflow);
        },
    };
    if lhs < rhs {
        return Err(ErrorCode::MajorityNotMet);
    }
    Ok(())
}

/// Whether a tally proof is accepted for the figures it comes with. The proof is not verified
/// cryptographically yet: every proof is accepted, and only its presence is asked for by
/// `finalize_proposal`. This is where a real verifier belongs.
pub open spec fn proof_accepted(
    proof: Seq<u8>,
    yes_votes: u64,
    no_votes: u64,
    threshold: u64,
    quorum: u64,
) -> bool {
    true
}

/// Runs the proof check. See `proof_accepted`.
pub fn verify_proof(
    proof: &Vec<u8>,
    yes_votes: u64,
    no_votes: u64,
    threshold: u64,
    quorum: u64,
) -> (accepted: bool)
    ensures
        accepted == proof_accepted(proof@, yes_votes, no_votes, threshold, quorum),
{
    true
}

/// Whether a ballot under `nullifier` is eligible under the snapshot committed to by
/// `merkle_root`. A ballot carries no inclusion proof, so nothing can be checked against the
/// root: every ballot is eligible, and eligibility rests on whoever relays the ballots.
pub open spec fn eligible(merkle_root: Bytes32, nullifier: Bytes32) -> bool {
    true
}

/// Runs the eligibility check. See `eligible`.
pub fn verify_inclusion(merkle_root: &Bytes32, nullifier: &Bytes32) -> (included: bool)
    ensures
        included == eligible(*merkle_root, *nullifier),
{
    true
}

impl Proposal {
    /// What every proposal on a ledger satisfies: it pays out something, and it is settled only
    /// with a passing tally on record.
    pub open spec fn well_formed(self) -> bool {
        &&& self.execution_amount > 0
        &&& self.is_executed ==> self.tally_result == TALLY_PASSED
    }

    /// Whether two states of a proposal agree in all that initialization binds to it: the
    /// identifier, who manages it, the eligibility snapshot, the two assets, the payout and its
    /// recipient.
    pub open spec fn same_terms(self, other: Proposal) -> bool {
        &&& self.proposal_id == other.proposal_id
        &&& self.manager == other.manager
        &&& self.merkle_root == other.merkle_root
        &&& self.voting_mint == other.voting_mint
        &&& self.treasury_mint == other.treasury_mint
        &&& self.execution_amount == other.execution_amount
        &&& self.target_wallet == other.target_wallet
    }

    /// Whether `signer` is the authority of this proposal. A proposal under a creator commitment
    /// has no authority.
    pub open spec fn is_managed_by(self, signer: Bytes32) -> bool {
        self.manager == Manager::Authority(signer)
    }

    /// The proposal as it stands right after initialization: no votes, no tally, not settled.
    /// With a creator commitment the proposal is managed under that commitment, without one by
    /// the payer as its authority.
    pub open spec fn opened(
        accounts: InitProposal,
        proposal_id: u64,
        merkle_root: Bytes32,
        execution_amount: u64,
        creator_commitment: Option<Bytes32>,
    ) -> Proposal {
        Proposal {
            proposal_id,
            vote_count: 0,
            manager: match creator_commitment {
                Some(commitment) => Manager::CreatorCommitment(commitment),
                None => Manager::Authority(accounts.payer),
            },
            merkle_root,
            voting_mint: accounts.voting_mint,
            treasury_mint: accounts.treasury_mint,
            execution_amount,
            target_wallet: accounts.target_wallet,
            tally_result: 0,
            is_executed: false,
        }
    }

    /// The transfer that settles this proposal.
    pub open spec fn settlement(self, decimals: u8) -> TransferChecked {
        TransferChecked {
            authority: self.proposal_id,
            mint: self.treasury_mint,
            target_wallet: self.target_wallet,
            amount: self.execution_amount,
            decimals,
        }
    }

    /// The proposal with all that settlement changes: a passing tally on record, and the latch
    /// set.
    pub open spec fn settled(self) -> Proposal {
        Proposal { tally_result: TALLY_PASSED, is_executed: true, ..self }
    }

    /// The proposal after one more accepted ballot.
    pub open spec fn after_vote(self) -> Result<Proposal, ErrorCode> {
        if self.vote_count == u64::MAX {
            Err(ErrorCode::ArithmeticOverflow)
        } else {
            Ok(Proposal { vote_count: (self.vote_count + 1) as u64, ..self })
        }
    }

    /// The proposal after its authority has recorded a tally.
    pub open spec fn after_set_tally(self, authority: Bytes32, tally: u8) -> Result<
        Proposal,
        ErrorCode,
    > {
        if !self.is_managed_by(authority) {
            Err(ErrorCode::Unauthorized)
        } else if self.is_executed {
            Err(ErrorCode::AlreadyExecuted)
        } else {
            Ok(Proposal { tally_result: tally, ..self })
        }
    }

    /// The proposal after its authority has settled it on the tally on record.
    pub open spec fn after_execution(self, authority: Bytes32) -> Result<Proposal, ErrorCode> {
        if !self.is_managed_by(authority) {
            Err(ErrorCode::Unauthorized)
        } else if self.is_executed {
            Err(ErrorCode::AlreadyExecuted)
        } else if self.tally_result != TALLY_PASSED {
            Err(ErrorCode::ProposalNotPassed)
        } else {
            Ok(self.settled())
        }
    }

    /// The proposal after a relayed tally with its proof has settled it. The checks come in
    /// this order: who manages the proposal, the latch, the proof, then quorum and majority.
    pub open spec fn after_finalize(
        self,
        proof: Seq<u8>,
        yes_votes: u64,
        no_votes: u64,
        threshold: u64,
        quorum: u64,
    ) -> Result<Proposal, ErrorCode> {
        if !(self.manager is CreatorCommitment) {
            Err(ErrorCode::Unauthorized)
        } else if self.is_executed {
            Err(ErrorCode::AlreadyExecuted)
        } else if proof.len() == 0 || !proof_accepted(
            proof,
            yes_votes,
            no_votes,
            threshold,
            quorum,
        ) {
            Err(ErrorCode::InvalidProof)
        } else {
            match tally_verdict(yes_votes, no_votes, threshold, quorum) {
                Err(e) => Err(e),
                Ok(()) => Ok(self.settled()),
            }
        }
    }
}

impl Proposal {
    /// Opens a proposal. A payout of zero is refused with `InvalidAmount`.
    pub fn open(
        accounts: &InitProposal,
        proposal_id: u64,
        merkle_root: Bytes32,
        execution_amount: u64,
        creator_commitment: Option<Bytes32>,
    ) -> (result: Result<Proposal, ErrorCode>)
        ensures
            result == (if execution_amount == 0 {
                Err::<Proposal, ErrorCode>(ErrorCode::InvalidAmount)
            } else {
                Ok(
                    Proposal::opened(
                        *accounts,
                        proposal_id,
                        merkle_root,
                        execution_amount,
                        creator_commitment,
                    ),
                )
            }),
    {
        if execution_amount == 0 {
            return Err(ErrorCode::InvalidAmount);
        }
        let manager = match creator_commitment {
            Some(commitment) => Manager::CreatorCommitment(commitment),
            None => Manager::Authority(accounts.payer),
        };
        Ok(
            Proposal {
                proposal_id,
                vote_count: 0,
                manager,
                merkle_root,
                voting_mint: accounts.voting_mint,
                treasury_mint: accounts.treasury_mint,
                execution_amount,
                target_wallet: accounts.target_wallet,
                tally_result: 0,
                is_executed: false,
            },
        )
    }

    /// Whether `signer` is the authority of this proposal.
    pub fn managed_by(&self, signer: &Bytes32) -> (managed: bool)
        ensures
            managed == self.is_managed_by(*signer),
    {
        match &self.manager {
            Manager::Authority(authority) => same_bytes(authority, signer),
            Manager::CreatorCommitment(_) => false,
        }
    }

    /// Counts one accepted ballot.
    pub fn record_vote(&mut self) -> (result: Result<(), ErrorCode>)
        ensures
            match old(self).after_vote() {
                Ok(next) => result == Ok::<(), ErrorCode>(()) && *final(self) == next,
                Err(e) => result == Err::<(), ErrorCode>(e) && *final(self) == *old(self),
            },
    {
        match self.vote_count.checked_add(1) {
            Some(count) => {
                self.vote_count = count;
                Ok(())
            },
            None => Err(ErrorCode::ArithmeticOverflow),
        }
    }

    /// Records the tally that the authority reports. The figure is taken on trust.
    pub fn set_tally(&mut self, authority: &Bytes32, tally: u8) -> (result: Result<(), ErrorCode>)
        ensures
            match old(self).after_set_tally(*authority, tally) {
                Ok(next) => result == Ok::<(), ErrorCode>(()) && *final(self) == next,
                Err(e) => result == Err::<(), ErrorCode>(e) && *final(self) == *old(self),
            },
    {
        if !self.managed_by(authority) {
            return Err(ErrorCode::Unauthorized);
        }
        if self.is_executed {
            return Err(ErrorCode::AlreadyExecuted);
        }
        self.tally_result = tally;
        Ok(())
    }

    /// Settles on the tally on record, for the authority. On success the latch is set and the
    /// transfer to carry out is returned; the two belong to one atomic step of the ledger.
    pub fn execute(&mut self, authority: &Bytes32, decimals: u8) -> (result: Result<
        TransferChecked,
        ErrorCode,
    >)
        ensures
            match old(self).after_execution(*authority) {
                Ok(next) => result == Ok::<TransferChecked, ErrorCode>(
                    old(self).settlement(decimals),
                ) && *final(self) == next,
                Err(e) => result == Err::<TransferChecked, ErrorCode>(e) && *final(self) == *old(
                    self,
                ),
            },
    {
        if !self.managed_by(authority) {
            return Err(ErrorCode::Unauthorized);
        }
        if self.is_executed {
            return Err(ErrorCode::AlreadyExecuted);
        }
        if self.tally_result != TALLY_PASSED {
            return Err(ErrorCode::ProposalNotPassed);
        }
        let transfer = self.transfer(decimals);
        self.is_executed = true;
        Ok(transfer)
    }

    /// Settles on a relayed tally that comes with a proof. On success the passing tally is
    /// recorded, the latch is set and the transfer to carry out is returned; they belong to one
    /// atomic step of the ledger.
    pub fn finalize(
        &mut self,
        proof: &Vec<u8>,
        yes_votes: u64,
        no_votes: u64,
        threshold: u64,
        quorum: u64,
        decimals: u8,
    ) -> (result: Result<TransferChecked, ErrorCode>)
        ensures
            match old(self).after_finalize(proof@, yes_votes, no_votes, threshold, quorum) {
                Ok(next) => result == Ok::<TransferChecked, ErrorCode>(
                    old(self).settlement(decimals),
                ) && *final(self) == next,
                Err(e) => result == Err::<TransferChecked, ErrorCode>(e) && *final(self) == *old(
                    self,
                ),
            },
    {
        match &self.manager {
            Manager::Authority(_) => {
                return Err(ErrorCode::Unauthorized);
            },
            Manager::CreatorCommitment(_) => {},
        }
        if self.is_executed {
            return Err(ErrorCode::AlreadyExecuted);
        }
        if proof.len() == 0 || !verify_proof(proof, yes_votes, no_votes, threshold, quorum) {
            return Err(ErrorCode::InvalidProof);
        }
        match check_tally(yes_votes, no_votes, threshold, quorum) {
            Err(e) => {
                return Err(e);
            },
            Ok(()) => {},
        }
        let transfer = self.transfer(decimals);
        self.tally_result = TALLY_PASSED;
        self.is_executed = true;
        Ok(transfer)
    }

    fn transfer(&self, decimals: u8) -> (transfer: TransferChecked)
        ensures
            transfer == self.settlement(decimals),
    {
        TransferChecked {
            authority: self.proposal_id,
            mint: self.treasury_mint,
            target_wallet: self.target_wallet,
            amount: self.execution_amount,
            decimals,
        }
    }
}

impl Proposal {
    /// Whether `next` is what one of the transitions makes of this proposal: a counted vote, a
    /// recorded tally, or a settlement by either way.
    pub open spec fn steps_to(self, next: Proposal) -> bool {
        ||| self.after_vote() == Ok::<Proposal, ErrorCode>(next)
        ||| exists|authority: Bytes32, tally: u8| #[trigger]
            self.after_set_tally(authority, tally) == Ok::<Proposal, ErrorCode>(next)
        ||| exists|authority: Bytes32| #[trigger]
            self.after_execution(authority) == Ok::<Proposal, ErrorCode>(next)
        ||| exists|proof: Seq<u8>, yes_votes: u64, no_votes: u64, threshold: u64, quorum: u64|
         #[trigger]
            self.after_finalize(proof, yes_votes, no_votes, threshold, quorum) == Ok::<
                Proposal,
                ErrorCode,
            >(next)
    }
}

/// No transition changes the terms of a proposal or clears its latch; a well-formed proposal
/// stays well formed; and the latch is set only on a passing tally.
pub proof fn lemma_transition_keeps_terms_and_latch(before: Proposal, after: Proposal)
    requires
        before.steps_to(after),
    ensures
        after.same_terms(before),
        before.is_executed ==> after.is_executed,
        before.well_formed() ==> after.well_formed(),
        !before.is_executed && after.is_executed ==> after.tally_result == TALLY_PASSED,
{
}

} // verus!
