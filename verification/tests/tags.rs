use solvote::{nullifier_tag, Manager};

#[test]
fn each_way_of_managing_has_its_tag() {
    assert_eq!(Manager::Authority([0; 32]).namespace_tag(), "proposal_v2");
    assert_eq!(Manager::Authority([9; 32]).namespace_tag(), "proposal_v2");
    assert_eq!(Manager::CreatorCommitment([0; 32]).namespace_tag(), "svrn_v5");
}

#[test]
fn ballots_have_their_own_tag() {
    assert_eq!(nullifier_tag(), "nullifier");
}
