use vstd::prelude::*;

verus! {

/// Why an instruction was rejected. A rejected instruction changes nothing.
#[derive(Debug, Clone, Copy, PartialEq, Eq)]
pub enum ErrorCode {
    /// The proposal has already been settled.
    AlreadyExecuted,
    /// Settlement was asked for before a passing tally was recorded.
    ProposalNotPassed,
    /// The tally proof is missing or was not accepted.
    InvalidProof,
    /// Fewer votes were cast than the quorum asks for.
    QuorumNotMet,
    /// The share of yes votes is below the threshold.
    MajorityNotMet,
    /// A ballot was already cast under this nullifier for this proposal.
    DuplicateVote,
    /// A sum or product over vote counts does not fit in 64 bits.
    ArithmeticOverflow,
    /// A proposal with this identifier already exists.
    StorageAlreadyExists,
    /// No proposal with this identifier exists.
    ProposalNotFound,
    /// The signer is not the one who manages this proposal.
    Unauthorized,
    /// A proposal must pay out a positive amount.
    InvalidAmount,
}

impl ErrorCode {
    /// The message shown to a caller.
    pub fn message(&self) -> (text: &'static str)
        ensures
            text@ == self.message_spec()@,
    {
        match self {
            ErrorCode::AlreadyExecuted => "Already executed.",
            ErrorCode::ProposalNotPassed => "Proposal did not pass.",
            ErrorCode::InvalidProof => "Invalid ZK Proof.",
            ErrorCode::QuorumNotMet => "Quorum not met.",
            ErrorCode::MajorityNotMet => "Majority threshold not met.",
            ErrorCode::DuplicateVote => "Nullifier already used.",
            ErrorCode::ArithmeticOverflow => "Arithmetic overflow.",
            ErrorCode::StorageAlreadyExists => "Proposal already exists.",
            ErrorCode::ProposalNotFound => "Proposal not found.",
            ErrorCode::Unauthorized => "Signer does not manage this proposal.",
            ErrorCode::InvalidAmount => "Execution amount must be positive.",
        }
    }

    pub open spec fn message_spec(&self) -> &'static str {
        match self {
            ErrorCode::AlreadyExecuted => "Already executed.",
            ErrorCode::ProposalNotPassed => "Proposal did not pass.",
            ErrorCode::InvalidProof => "Invalid ZK Proof.",
            ErrorCode::QuorumNotMet => "Quorum not met.",
            ErrorCode::MajorityNotMet => "Majority threshold not met.",
            ErrorCode::DuplicateVote => "Nullifier already used.",
            ErrorCode::ArithmeticOverflow => "Arithmetic overflow.",
            ErrorCode::StorageAlreadyExists => "Proposal already exists.",
            ErrorCode::ProposalNotFound => "Proposal not found.",
            ErrorCode::Unauthorized => "Signer does not manage this proposal.",
            ErrorCode::InvalidAmount => "Execution amount must be positive.",
        }
    }
}

} // verus!
