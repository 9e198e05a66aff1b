use vstd::prelude::*;

verus! {

/// A 32-byte identifier: an address on the ledger, a commitment, a nullifier or a public key.
pub type Bytes32 = [u8; 32];

/// The value of `tally_result` that stands for a passed vote.
pub const TALLY_PASSED: u8 = 1;

/// Whether two identifiers are the same.
pub fn same_bytes(a: &Bytes32, b: &Bytes32) -> (same: bool)
    ensures
        same == (*a == *b),
{
    let mut i: usize = 0;
    while i < 32
        invariant
            i <= 32,
            forall|k: int| 0 <= k < i ==> a[k] == b[k],
        decreases 32 - i,
    {
        if a[i] != b[i] {
            return false;
        }
        i += 1;
    }
    assert(*a =~= *b);
    true
}

/// Who may manage a proposal.
#[derive(Debug, Clone, Copy, PartialEq, Eq)]
pub enum Manager {
    /// A known address: it alone sets the tally and settles.
    Authority(Bytes32),
    /// A commitment to the creator, whose address stays hidden: anyone may relay a tally, and
    /// the tally is checked against quorum and threshold before it settles.
    CreatorCommitment(Bytes32),
}

impl Manager {
    /// The tag under which the ledger derives the address of a proposal from its identifier.
    /// The proposal signs its settlement under the same tag.
    pub open spec fn tag(self) -> Seq<char> {
        match self {
            Manager::Authority(_) => "proposal_v2"@,
            Manager::CreatorCommitment(_) => "svrn_v5"@,
        }
    }

    /// The tag as text. See `tag`.
    pub fn namespace_tag(&self) -> (tag: &'static str)
        ensures
            tag@ == self.tag(),
    {
        match self {
            Manager::Authority(_) => "proposal_v2",
            Manager::CreatorCommitment(_) => "svrn_v5",
        }
    }
}

/// The tag under which the ledger derives the address of a ballot from the address of its
/// proposal and its nullifier.
pub fn nullifier_tag() -> (tag: &'static str)
    ensures
        tag@ == "nullifier"@,
{
    "nullifier"
}

/// One governance question with the payout bound to it.
#[derive(Debug, Clone, Copy, PartialEq, Eq)]
pub struct Proposal {
    pub proposal_id: u64,
    /// Number of ballots accepted so far.
    pub vote_count: u64,
    pub manager: Manager,
    /// Commitment to the eligibility snapshot taken when the proposal opened.
    pub merkle_root: Bytes32,
    /// The asset whose holdings give voting weight.
    pub voting_mint: Bytes32,
    /// The asset paid out on settlement.
    pub treasury_mint: Bytes32,
    pub execution_amount: u64,
    pub target_wallet: Bytes32,
    /// `TALLY_PASSED` once a passing tally is recorded.
    pub tally_result: u8,
    /// Set by settlement and never cleared.
    pub is_executed: bool,
}

/// One cast ballot, stored under the nullifier that spent the voting right.
#[derive(Debug, Clone, PartialEq, Eq)]
pub struct NullifierAccount {
    /// The proposal the ballot was cast on.
    pub proposal: u64,
    pub nullifier: Bytes32,
    /// The encrypted ballot. Nothing here reads it.
    pub ciphertext: Vec<u8>,
    /// Ephemeral public key of the ballot's encryption.
    pub pubkey: Bytes32,
    pub nonce: u128,
}

/// A cast ballot as a mathematical value.
pub struct NullifierRecord {
    pub proposal: u64,
    pub nullifier: Bytes32,
    pub ciphertext: Seq<u8>,
    pub pubkey: Bytes32,
    pub nonce: u128,
}

impl View for NullifierAccount {
    type V = NullifierRecord;

    open spec fn view(&self) -> NullifierRecord {
        NullifierRecord {
            proposal: self.proposal,
            nullifier: self.nullifier,
            ciphertext: self.ciphertext@,
            pubkey: self.pubkey,
            nonce: self.nonce,
        }
    }
}

/// The one transfer that settles a proposal: `amount` units of `mint`, out of the holding that
/// the proposal itself keeps, into the holding of `target_wallet`, authorized by the proposal.
#[derive(Debug, Clone, Copy, PartialEq, Eq)]
pub struct TransferChecked {
    /// The proposal that owns the source holding and authorizes the transfer.
    pub authority: u64,
    pub mint: Bytes32,
    pub target_wallet: Bytes32,
    pub amount: u64,
    pub decimals: u8,
}

/// What the ledger hands to `initialize_proposal`.
#[derive(Debug, Clone, Copy, PartialEq, Eq)]
pub struct InitProposal {
    /// The signer that pays for the proposal's storage. Without a creator commitment it becomes
    /// the proposal's authority.
    pub payer: Bytes32,
    pub voting_mint: Bytes32,
    pub treasury_mint: Bytes32,
    pub target_wallet: Bytes32,
}

/// What the ledger hands to `submit_vote`.
#[derive(Debug, Clone, Copy, PartialEq, Eq)]
pub struct SubmitVote {
    pub proposal: u64,
}

/// What the ledger hands to `set_tally`.
#[derive(Debug, Clone, Copy, PartialEq, Eq)]
pub struct SetTally {
    pub proposal: u64,
    /// The address whose signature the ledger has checked.
    pub authority: Bytes32,
}

/// What the ledger hands to `finalize_execution`.
#[derive(Debug, Clone, Copy, PartialEq, Eq)]
pub struct ExecuteProposal {
    pub proposal: u64,
    /// The address whose signature the ledger has checked.
    pub authority: Bytes32,
    /// Decimals of the treasury asset, as the ledger records them.
    pub decimals: u8,
}

/// What the ledger hands to `finalize_proposal`.
#[derive(Debug, Clone, Copy, PartialEq, Eq)]
pub struct FinalizeProposal {
    pub proposal: u64,
    /// Decimals of the treasury asset, as the ledger records them.
    pub decimals: u8,
}

} // verus!
