use solvote::{
    check_tally, verify_inclusion, verify_proof, ErrorCode, InitProposal, Manager, Proposal,
    TransferChecked, TALLY_PASSED,
};

const PAYER: [u8; 32] = [1; 32];
const VOTING_MINT: [u8; 32] = [2; 32];
const TREASURY_MINT: [u8; 32] = [3; 32];
const TARGET: [u8; 32] = [4; 32];
const ROOT: [u8; 32] = [5; 32];
const COMMITMENT: [u8; 32] = [6; 32];
const STRANGER: [u8; 32] = [7; 32];

fn accounts() -> InitProposal {
    InitProposal {
        payer: PAYER,
        voting_mint: VOTING_MINT,
        treasury_mint: TREASURY_MINT,
        target_wallet: TARGET,
    }
}

fn with_authority() -> Proposal {
    Proposal::open(&accounts(), 11, ROOT, 500, None).unwrap()
}

fn with_commitment() -> Proposal {
    Proposal::open(&accounts(), 12, ROOT, 900, Some(COMMITMENT)).unwrap()
}

#[test]
fn check_tally_passes_on_sixty_of_a_hundred() {
    assert_eq!(check_tally(60, 40, 50, 50), Ok(()));
}

#[test]
fn check_tally_fails_majority_on_forty_of_a_hundred() {
    assert_eq!(check_tally(40, 60, 50, 50), Err(ErrorCode::MajorityNotMet));
}

#[test]
fn check_tally_fails_quorum_on_fifteen_votes() {
    assert_eq!(check_tally(10, 5, 50, 50), Err(ErrorCode::QuorumNotMet));
}

#[test]
fn check_tally_passes_exactly_at_the_threshold() {
    assert_eq!(check_tally(50, 50, 50, 100), Ok(()));
    assert_eq!(check_tally(49, 51, 50, 100), Err(ErrorCode::MajorityNotMet));
    assert_eq!(check_tally(2, 1, 66, 0), Ok(()));
    assert_eq!(check_tally(2, 1, 67, 0), Err(ErrorCode::MajorityNotMet));
}

#[test]
fn check_tally_passes_exactly_at_the_quorum() {
    assert_eq!(check_tally(30, 20, 50, 50), Ok(()));
    assert_eq!(check_tally(30, 20, 50, 51), Err(ErrorCode::QuorumNotMet));
}

#[test]
fn check_tally_with_no_votes_and_no_quorum_passes() {
    assert_eq!(check_tally(0, 0, 50, 0), Ok(()));
    assert_eq!(check_tally(0, 0, 50, 1), Err(ErrorCode::QuorumNotMet));
}

#[test]
fn check_tally_threshold_above_a_hundred_cannot_pass_with_votes() {
    assert_eq!(check_tally(10, 0, 101, 0), Err(ErrorCode::MajorityNotMet));
    assert_eq!(check_tally(10, 0, 100, 0), Ok(()));
    assert_eq!(check_tally(10, 1, 100, 0), Err(ErrorCode::MajorityNotMet));
}

#[test]
fn check_tally_refuses_a_total_beyond_64_bits() {
    assert_eq!(check_tally(u64::MAX, 1, 50, 0), Err(ErrorCode::ArithmeticOverflow));
    assert_eq!(check_tally(1, u64::MAX, 50, 0), Err(ErrorCode::ArithmeticOverflow));
}

#[test]
fn check_tally_refuses_a_product_beyond_64_bits() {
    let yes = u64::MAX / 100 + 1;
    assert_eq!(check_tally(yes, 0, 50, 0), Err(ErrorCode::ArithmeticOverflow));
    assert_eq!(check_tally(u64::MAX / 100, 0, 50, 0), Ok(()));
    assert_eq!(check_tally(1, 1 << 40, 1 << 30, 0), Err(ErrorCode::ArithmeticOverflow));
}

#[test]
fn check_tally_asks_for_the_quorum_before_it_multiplies() {
    let yes = u64::MAX / 100 + 1;
    assert_eq!(check_tally(yes, 0, 50, u64::MAX), Err(ErrorCode::QuorumNotMet));
}

#[test]
fn every_proof_and_every_ballot_is_accepted_for_now() {
    assert!(verify_proof(&vec![1, 2, 3], 60, 40, 50, 50));
    assert!(verify_proof(&Vec::new(), 0, 0, 0, 0));
    assert!(verify_inclusion(&ROOT, &[9; 32]));
    assert!(verify_inclusion(&[0; 32], &[0; 32]));
}

#[test]
fn open_binds_the_terms() {
    let p = with_authority();
    assert_eq!(
        p,
        Proposal {
            proposal_id: 11,
            vote_count: 0,
            manager: Manager::Authority(PAYER),
            merkle_root: ROOT,
            voting_mint: VOTING_MINT,
            treasury_mint: TREASURY_MINT,
            execution_amount: 500,
            target_wallet: TARGET,
            tally_result: 0,
            is_executed: false,
        }
    );
    assert_eq!(with_commitment().manager, Manager::CreatorCommitment(COMMITMENT));
}

#[test]
fn open_refuses_a_payout_of_zero() {
    assert_eq!(Proposal::open(&accounts(), 1, ROOT, 0, None), Err(ErrorCode::InvalidAmount));
    assert_eq!(
        Proposal::open(&accounts(), 1, ROOT, 0, Some(COMMITMENT)),
        Err(ErrorCode::InvalidAmount)
    );
    assert!(Proposal::open(&accounts(), 1, ROOT, 1, None).is_ok());
}

#[test]
fn managed_by_knows_the_authority_only() {
    assert!(with_authority().managed_by(&PAYER));
    assert!(!with_authority().managed_by(&STRANGER));
    assert!(!with_commitment().managed_by(&PAYER));
    assert!(!with_commitment().managed_by(&COMMITMENT));
}

#[test]
fn record_vote_counts_one() {
    let mut p = with_authority();
    assert_eq!(p.record_vote(), Ok(()));
    assert_eq!(p.record_vote(), Ok(()));
    assert_eq!(p.vote_count, 2);
    assert_eq!(Proposal { vote_count: 0, ..p }, with_authority());
}

#[test]
fn record_vote_refuses_to_wrap() {
    let mut p = Proposal { vote_count: u64::MAX - 1, ..with_authority() };
    assert_eq!(p.record_vote(), Ok(()));
    assert_eq!(p.vote_count, u64::MAX);
    assert_eq!(p.record_vote(), Err(ErrorCode::ArithmeticOverflow));
    assert_eq!(p.vote_count, u64::MAX);
}

#[test]
fn set_tally_is_for_the_authority() {
    let mut p = with_authority();
    assert_eq!(p.set_tally(&STRANGER, 1), Err(ErrorCode::Unauthorized));
    assert_eq!(p, with_authority());
    assert_eq!(p.set_tally(&PAYER, 1), Ok(()));
    assert_eq!(p.tally_result, 1);
    assert_eq!(p.set_tally(&PAYER, 0), Ok(()));
    assert_eq!(p.tally_result, 0);
    assert_eq!(p.set_tally(&PAYER, 200), Ok(()));
    assert_eq!(p.tally_result, 200);
    assert!(!p.is_executed);

    let mut q = with_commitment();
    assert_eq!(q.set_tally(&PAYER, 1), Err(ErrorCode::Unauthorized));
    assert_eq!(q.set_tally(&COMMITMENT, 1), Err(ErrorCode::Unauthorized));
    assert_eq!(q, with_commitment());
}

#[test]
fn set_tally_is_refused_after_settlement() {
    let mut p = with_authority();
    assert_eq!(p.set_tally(&PAYER, TALLY_PASSED), Ok(()));
    assert!(p.execute(&PAYER, 6).is_ok());
    let settled = p;
    assert_eq!(p.set_tally(&PAYER, 0), Err(ErrorCode::AlreadyExecuted));
    assert_eq!(p, settled);
    assert_eq!(p.set_tally(&STRANGER, 0), Err(ErrorCode::Unauthorized));
}

#[test]
fn execute_needs_a_passing_tally() {
    let mut p = with_authority();
    assert_eq!(p.execute(&PAYER, 6), Err(ErrorCode::ProposalNotPassed));
    assert_eq!(p.set_tally(&PAYER, 2), Ok(()));
    assert_eq!(p.execute(&PAYER, 6), Err(ErrorCode::ProposalNotPassed));
    assert!(!p.is_executed);
    assert_eq!(p.execute(&STRANGER, 6), Err(ErrorCode::Unauthorized));
}

#[test]
fn execute_hands_out_the_bound_transfer_once() {
    let mut p = with_authority();
    assert_eq!(p.set_tally(&PAYER, TALLY_PASSED), Ok(()));
    assert_eq!(
        p.execute(&PAYER, 9),
        Ok(TransferChecked {
            authority: 11,
            mint: TREASURY_MINT,
            target_wallet: TARGET,
            amount: 500,
            decimals: 9,
        })
    );
    assert!(p.is_executed);
    assert_eq!(p.tally_result, TALLY_PASSED);
    assert_eq!(p.execute(&PAYER, 9), Err(ErrorCode::AlreadyExecuted));
    assert!(p.is_executed);
}

#[test]
fn finalize_checks_in_order() {
    let proof = vec![1u8];
    let mut p = with_commitment();
    assert_eq!(p.finalize(&Vec::new(), 10, 5, 50, 50, 6), Err(ErrorCode::InvalidProof));
    assert_eq!(p.finalize(&proof, u64::MAX, 1, 50, 50, 6), Err(ErrorCode::ArithmeticOverflow));
    assert_eq!(p.finalize(&proof, 10, 5, 50, 50, 6), Err(ErrorCode::QuorumNotMet));
    assert_eq!(p.finalize(&proof, 40, 60, 50, 50, 6), Err(ErrorCode::MajorityNotMet));
    assert_eq!(p, with_commitment());
    assert_eq!(
        p.finalize(&proof, 60, 40, 50, 50, 6),
        Ok(TransferChecked {
            authority: 12,
            mint: TREASURY_MINT,
            target_wallet: TARGET,
            amount: 900,
            decimals: 6,
        })
    );
    assert_eq!(
        p,
        Proposal { tally_result: TALLY_PASSED, is_executed: true, ..with_commitment() }
    );
    assert_eq!(p.finalize(&Vec::new(), 10, 5, 50, 50, 6), Err(ErrorCode::AlreadyExecuted));
    assert_eq!(p.finalize(&proof, 60, 40, 50, 50, 6), Err(ErrorCode::AlreadyExecuted));
}

#[test]
fn finalize_is_not_for_a_proposal_with_an_authority() {
    let mut p = with_authority();
    assert_eq!(p.finalize(&vec![1u8], 60, 40, 50, 50, 6), Err(ErrorCode::Unauthorized));
    assert_eq!(p, with_authority());
}

#[test]
fn execute_is_not_for_a_proposal_under_a_commitment() {
    let mut p = Proposal { tally_result: TALLY_PASSED, ..with_commitment() };
    assert_eq!(p.execute(&PAYER, 6), Err(ErrorCode::Unauthorized));
    assert_eq!(p.execute(&COMMITMENT, 6), Err(ErrorCode::Unauthorized));
    assert!(!p.is_executed);
}
