use solvote::{same_bytes, ErrorCode};

#[test]
fn messages_of_the_errors() {
    assert_eq!(ErrorCode::AlreadyExecuted.message(), "Already executed.");
    assert_eq!(ErrorCode::ProposalNotPassed.message(), "Proposal did not pass.");
    assert_eq!(ErrorCode::InvalidProof.message(), "Invalid ZK Proof.");
    assert_eq!(ErrorCode::QuorumNotMet.message(), "Quorum not met.");
    assert_eq!(ErrorCode::MajorityNotMet.message(), "Majority threshold not met.");
    assert_eq!(ErrorCode::DuplicateVote.message(), "Nullifier already used.");
    assert_eq!(ErrorCode::ArithmeticOverflow.message(), "Arithmetic overflow.");
    assert_eq!(ErrorCode::StorageAlreadyExists.message(), "Proposal already exists.");
    assert_eq!(ErrorCode::ProposalNotFound.message(), "Proposal not found.");
    assert_eq!(ErrorCode::Unauthorized.message(), "Signer does not manage this proposal.");
    assert_eq!(ErrorCode::InvalidAmount.message(), "Execution amount must be positive.");
}

#[test]
fn same_bytes_compares_all_bytes() {
    let a = [7u8; 32];
    let mut b = [7u8; 32];
    assert!(same_bytes(&a, &b));
    b[31] = 8;
    assert!(!same_bytes(&a, &b));
    b[31] = 7;
    b[0] = 0;
    assert!(!same_bytes(&a, &b));
}
