use vstd::prelude::*;
use crate::error::ErrorCode;
use crate::proposal::eligible;
use crate::registry::{one_ballot_per_nullifier, spent};
use crate::state::{
    Bytes32, ExecuteProposal, FinalizeProposal, InitProposal, NullifierRecord, Proposal, SetTally,
    SubmitVote, TransferChecked,
};

verus! {

/// A ledger as a mathematical value: the proposals by their identifiers, and for each proposal
/// the ballots cast on it, oldest first.
pub struct LedgerView {
    pub proposals: Map<u64, Proposal>,
    pub ballots: Map<u64, Seq<NullifierRecord>>,
}

impl LedgerView {
    /// The ledger that holds nothing.
    pub open spec fn empty() -> LedgerView {
        LedgerView { proposals: Map::empty(), ballots: Map::empty() }
    }

    /// What holds of every ledger: each proposal is stored under its own identifier, pays out
    /// something and is settled only on a passing tally; its ballots were cast on it, each under
    /// a nullifier of its own; and its vote count is the number of its ballots.
    pub open spec fn well_formed(self) -> bool {
        &&& self.proposals.dom().finite()
        &&& self.ballots.dom() == self.proposals.dom()
        &&& forall|p: u64| #[trigger]
            self.proposals.contains_key(p) ==> {
                &&& self.proposals[p].proposal_id == p
                &&& self.proposals[p].well_formed()
                &&& self.proposals[p].vote_count == self.ballots[p].len()
                &&& one_ballot_per_nullifier(p, self.ballots[p])
            }
    }

    /// Whether a ballot was cast on `proposal` under `nullifier`.
    pub open spec fn has_nullifier(self, proposal: u64, nullifier: Bytes32) -> bool {
        self.proposals.contains_key(proposal) && spent(self.ballots[proposal], nullifier)
    }

    /// Whether `proposal` exists and is settled.
    pub open spec fn is_executed(self, proposal: u64) -> bool {
        self.proposals.contains_key(proposal) && self.proposals[proposal].is_executed
    }

    /// The ledger with `proposal` stored under `proposal_id`, the ballots untouched.
    pub open spec fn with_proposal(self, proposal_id: u64, proposal: Proposal) -> LedgerView {
        LedgerView { proposals: self.proposals.insert(proposal_id, proposal), ..self }
    }

    /// Creates a proposal under an identifier that is free. An identifier in use is refused
    /// with `StorageAlreadyExists`, a payout of zero with `InvalidAmount`.
    pub open spec fn initialize_proposal(
        self,
        accounts: InitProposal,
        proposal_id: u64,
        merkle_root: Bytes32,
        execution_amount: u64,
        creator_commitment: Option<Bytes32>,
    ) -> Result<LedgerView, ErrorCode> {
        if self.proposals.contains_key(proposal_id) {
            Err(ErrorCode::StorageAlreadyExists)
        } else if execution_amount == 0 {
            Err(ErrorCode::InvalidAmount)
        } else {
            Ok(
                LedgerView {
                    proposals: self.proposals.insert(
                        proposal_id,
                        Proposal::opened(
                            accounts,
                            proposal_id,
                            merkle_root,
                            execution_amount,
                            creator_commitment,
                        ),
                    ),
                    ballots: self.ballots.insert(proposal_id, Seq::empty()),
                },
            )
        }
    }

    /// Stores a ballot under a fresh nullifier and counts it. A nullifier already used on this
    /// proposal is refused with `DuplicateVote`.
    pub open spec fn submit_vote(
        self,
        accounts: SubmitVote,
        nullifier: Bytes32,
        ciphertext: Seq<u8>,
        pubkey: Bytes32,
        nonce: u128,
    ) -> Result<LedgerView, ErrorCode> {
        let p = accounts.proposal;
        if !self.proposals.contains_key(p) {
            Err(ErrorCode::ProposalNotFound)
        } else if spent(self.ballots[p], nullifier) {
            Err(ErrorCode::DuplicateVote)
        } else if !eligible(self.proposals[p].merkle_root, nullifier) {
            Err(ErrorCode::Unauthorized)
        } else {
            match self.proposals[p].after_vote() {
                Err(e) => Err(e),
                Ok(counted) => Ok(
                    LedgerView {
                        proposals: self.proposals.insert(p, counted),
                        ballots: self.ballots.insert(
                            p,
                            self.ballots[p].push(
                                NullifierRecord {
                                    proposal: p,
                                    nullifier,
                                    ciphertext,
                                    pubkey,
                                    nonce,
                                },
                            ),
                        ),
                    },
                ),
            }
        }
    }

    /// Records the tally that the proposal's authority reports.
    pub open spec fn set_tally(self, accounts: SetTally, tally: u8) -> Result<
        LedgerView,
        ErrorCode,
    > {
        if !self.proposals.contains_key(accounts.proposal) {
            Err(ErrorCode::ProposalNotFound)
        } else {
            match self.proposals[accounts.proposal].after_set_tally(accounts.authority, tally) {
                Err(e) => Err(e),
                Ok(next) => Ok(self.with_proposal(accounts.proposal, next)),
            }
        }
    }

    /// Settles a proposal on the tally on record, for its authority.
    pub open spec fn finalize_execution(self, accounts: ExecuteProposal) -> Result<
        LedgerView,
        ErrorCode,
    > {
        if !self.proposals.contains_key(accounts.proposal) {
            Err(ErrorCode::ProposalNotFound)
        } else {
            match self.proposals[accounts.proposal].after_execution(accounts.authority) {
                Err(e) => Err(e),
                Ok(next) => Ok(self.with_proposal(accounts.proposal, next)),
            }
        }
    }

    /// Settles a proposal on a relayed tally that comes with a proof.
    pub open spec fn finalize_proposal(
        self,
        accounts: FinalizeProposal,
        proof: Seq<u8>,
        yes_votes: u64,
        no_votes: u64,
        threshold: u64,
        quorum: u64,
    ) -> Result<LedgerView, ErrorCode> {
        if !self.proposals.contains_key(accounts.proposal) {
            Err(ErrorCode::ProposalNotFound)
        } else {
            match self.proposals[accounts.proposal].after_finalize(
                proof,
                yes_votes,
                no_votes,
                threshold,
                quorum,
            ) {
                Err(e) => Err(e),
                Ok(next) => Ok(self.with_proposal(accounts.proposal, next)),
            }
        }
    }
}

/// One request to the ledger, with what the ledger hands over and what the caller sends.
#[derive(Debug, Clone, PartialEq, Eq)]
pub enum Instruction {
    InitializeProposal {
        accounts: InitProposal,
        proposal_id: u64,
        merkle_root: Bytes32,
        execution_amount: u64,
        creator_commitment: Option<Bytes32>,
    },
    SubmitVote {
        accounts: SubmitVote,
        nullifier: Bytes32,
        ciphertext: Vec<u8>,
        pubkey: Bytes32,
        nonce: u128,
    },
    SetTally { accounts: SetTally, tally: u8 },
    FinalizeExecution { accounts: ExecuteProposal },
    FinalizeProposal {
        accounts: FinalizeProposal,
        proof: Vec<u8>,
        yes_votes: u64,
        no_votes: u64,
        threshold: u64,
        quorum: u64,
    },
}

impl Instruction {
    /// The proposal that the instruction is about.
    pub open spec fn proposal(self) -> u64 {
        match self {
            Instruction::InitializeProposal { proposal_id, .. } => proposal_id,
            Instruction::SubmitVote { accounts, .. } => accounts.proposal,
            Instruction::SetTally { accounts, .. } => accounts.proposal,
            Instruction::FinalizeExecution { accounts } => accounts.proposal,
            Instruction::FinalizeProposal { accounts, .. } => accounts.proposal,
        }
    }
}

impl LedgerView {
    /// The ledger that an instruction leads to, or the reason why it is refused.
    pub open spec fn step(self, instruction: Instruction) -> Result<LedgerView, ErrorCode> {
        match instruction {
            Instruction::InitializeProposal {
                accounts,
                proposal_id,
                merkle_root,
                execution_amount,
                creator_commitment,
            } => self.initialize_proposal(
                accounts,
                proposal_id,
                merkle_root,
                execution_amount,
                creator_commitment,
            ),
            Instruction::SubmitVote {
                accounts,
                nullifier,
                ciphertext,
                pubkey,
                nonce,
            } => self.submit_vote(accounts, nullifier, ciphertext@, pubkey, nonce),
            Instruction::SetTally { accounts, tally } => self.set_tally(accounts, tally),
            Instruction::FinalizeExecution { accounts } => self.finalize_execution(accounts),
            Instruction::FinalizeProposal {
                accounts,
                proof,
                yes_votes,
                no_votes,
                threshold,
                quorum,
            } => self.finalize_proposal(accounts, proof@, yes_votes, no_votes, threshold, quorum),
        }
    }

    /// The ledger after an instruction. A refused instruction leaves it as it was.
    pub open spec fn apply(self, instruction: Instruction) -> LedgerView {
        match self.step(instruction) {
            Ok(next) => next,
            Err(_) => self,
        }
    }

    /// What an instruction hands back: the reason why it is refused; or, where it settles a
    /// proposal, the transfer to carry out; or nothing.
    pub open spec fn outcome(self, instruction: Instruction) -> Result<
        Option<TransferChecked>,
        ErrorCode,
    > {
        match self.step(instruction) {
            Err(e) => Err(e),
            Ok(_) => match instruction {
                Instruction::FinalizeExecution { accounts } => Ok(
                    Some(self.proposals[accounts.proposal].settlement(accounts.decimals)),
                ),
                Instruction::FinalizeProposal { accounts, .. } => Ok(
                    Some(self.proposals[accounts.proposal].settlement(accounts.decimals)),
                ),
                _ => Ok(None),
            },
        }
    }

    /// The ledger after a sequence of instructions, taken one after the other.
    pub open spec fn run(self, instructions: Seq<Instruction>) -> LedgerView
        decreases instructions.len(),
    {
        if instructions.len() == 0 {
            self
        } else {
            self.run(instructions.drop_last()).apply(instructions.last())
        }
    }
}

} // verus!
