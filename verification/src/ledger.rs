use std::collections::HashMap;
use vstd::prelude::*;
use crate::error::ErrorCode;
use crate::model::{Instruction, LedgerView};
use crate::proposal::verify_inclusion;
use crate::registry::{one_ballot_per_nullifier, NullifierRegistry};
use crate::state::{
    Bytes32, ExecuteProposal, FinalizeProposal, InitProposal, Proposal, SetTally, SubmitVote,
    TransferChecked,
};

verus! {

/// A proposal with the ballots cast on it.
struct Entry {
    proposal: Proposal,
    registry: NullifierRegistry,
}

impl Entry {
    spec fn agrees(self) -> bool {
        &&& self.registry.scope() == self.proposal.proposal_id
        &&& self.proposal.well_formed()
        &&& self.proposal.vote_count == self.registry@.len()
        &&& one_ballot_per_nullifier(self.proposal.proposal_id, self.registry@)
    }
}

/// The store behind the instructions: proposals by identifier, each with the ballots cast on it.
/// An entry is created once and never removed.
pub struct Ledger {
    entries: HashMap<u64, Entry>,
}

spec fn view_of(entries: Map<u64, Entry>) -> LedgerView {
    LedgerView {
        proposals: Map::new(|p: u64| entries.contains_key(p), |p: u64| entries[p].proposal),
        ballots: Map::new(|p: u64| entries.contains_key(p), |p: u64| entries[p].registry@),
    }
}

spec fn entries_agree(entries: Map<u64, Entry>) -> bool {
    &&& entries.dom().finite()
    &&& forall|p: u64| #[trigger]
        entries.contains_key(p) ==> entries[p].proposal.proposal_id == p && entries[p].agrees()
}

proof fn lemma_view_well_formed(entries: Map<u64, Entry>)
    requires
        entries_agree(entries),
    ensures
        view_of(entries).well_formed(),
{
    let v = view_of(entries);
    assert(v.proposals.dom() =~= entries.dom());
    assert(v.ballots.dom() =~= entries.dom());
}

impl View for Ledger {
    type V = LedgerView;

    closed spec fn view(&self) -> LedgerView {
        view_of(self.entries@)
    }
}

impl Ledger {
    #[verifier::type_invariant]
    spec fn inv(self) -> bool {
        entries_agree(self.entries@)
    }

    /// A ledger that holds nothing.
    pub fn new() -> (ledger: Ledger)
        ensures
            ledger@ == LedgerView::empty(),
            ledger@.well_formed(),
    {
        let ledger = Ledger { entries: HashMap::new() };
        proof {
            assert(ledger@.proposals =~= Map::empty());
            assert(ledger@.ballots =~= Map::empty());
        }
        ledger
    }

    /// The proposal stored under `proposal_id`, if there is one.
    pub fn proposal(&self, proposal_id: u64) -> (found: Option<Proposal>)
        ensures
            self@.well_formed(),
            found == (if self@.proposals.contains_key(proposal_id) {
                Some(self@.proposals[proposal_id])
            } else {
                None
            }),
    {
        proof {
            use_type_invariant(self);
            lemma_view_well_formed(self.entries@);
        }
        match self.entries.get(&proposal_id) {
            Some(entry) => Some(entry.proposal),
            None => None,
        }
    }

    /// The ballots cast on the proposal stored under `proposal_id`, if there is one.
    pub fn registry(&self, proposal_id: u64) -> (found: Option<&NullifierRegistry>)
        ensures
            self@.well_formed(),
            found is Some <==> self@.proposals.contains_key(proposal_id),
            found matches Some(registry) ==> registry@ == self@.ballots[proposal_id]
                && registry.scope() == proposal_id,
    {
        proof {
            use_type_invariant(self);
            lemma_view_well_formed(self.entries@);
        }
        match self.entries.get(&proposal_id) {
            Some(entry) => Some(&entry.registry),
            None => None,
        }
    }

    /// Whether a ballot was cast on `proposal_id` under `nullifier`.
    pub fn has_nullifier(&self, proposal_id: u64, nullifier: &Bytes32) -> (used: bool)
        ensures
            used == self@.has_nullifier(proposal_id, *nullifier),
    {
        match self.registry(proposal_id) {
            Some(registry) => registry.contains(nullifier),
            None => false,
        }
    }
}

impl Ledger {
    /// Takes the entry of a proposal out of the store, to be put back after the change.
    fn take(&mut self, proposal_id: u64) -> (taken: Option<Entry>)
        ensures
            entries_agree(old(self).entries@),
            final(self).entries@ == old(self).entries@.remove(proposal_id),
            taken == (if old(self).entries@.contains_key(proposal_id) {
                Some(old(self).entries@[proposal_id])
            } else {
                None
            }),
            taken matches Some(entry) ==> entry.agrees() && entry.proposal.proposal_id
                == proposal_id,
    {
        proof {
            use_type_invariant(&*self);
        }
        let mut entries: HashMap<u64, Entry> = HashMap::new();
        std::mem::swap(&mut self.entries, &mut entries);
        let taken = entries.remove(&proposal_id);
        self.entries = entries;
        taken
    }

    /// Stores an entry under the identifier of its proposal.
    fn put(&mut self, entry: Entry)
        requires
            entry.agrees(),
        ensures
            final(self).entries@ == old(self).entries@.insert(entry.proposal.proposal_id, entry),
    {
        proof {
            use_type_invariant(&*self);
        }
        let mut entries: HashMap<u64, Entry> = HashMap::new();
        std::mem::swap(&mut self.entries, &mut entries);
        entries.insert(entry.proposal.proposal_id, entry);
        self.entries = entries;
    }
}

/// Creates a proposal under `proposal_id` with the payout, the assets and the eligibility
/// snapshot that stay bound to it. With a creator commitment the proposal is managed under that
/// commitment, without one by the payer as its authority.
pub fn initialize_proposal(
    ledger: &mut Ledger,
    accounts: InitProposal,
    proposal_id: u64,
    merkle_root: Bytes32,
    execution_amount: u64,
    creator_commitment: Option<Bytes32>,
) -> (result: Result<(), ErrorCode>)
    ensures
        final(ledger)@.well_formed(),
        match old(ledger)@.initialize_proposal(
            accounts,
            proposal_id,
            merkle_root,
            execution_amount,
            creator_commitment,
        ) {
            Ok(next) => result == Ok::<(), ErrorCode>(()) && final(ledger)@ == next,
            Err(e) => result == Err::<(), ErrorCode>(e) && final(ledger)@ == old(ledger)@,
        },
{
    proof {
        use_type_invariant(&*ledger);
        lemma_view_well_formed(ledger.entries@);
    }
    if ledger.entries.contains_key(&proposal_id) {
        return Err(ErrorCode::StorageAlreadyExists);
    }
    let proposal = match Proposal::open(
        &accounts,
        proposal_id,
        merkle_root,
        execution_amount,
        creator_commitment,
    ) {
        Ok(proposal) => proposal,
        Err(e) => {
            return Err(e);
        },
    };
    let ghost before = ledger.entries@;
    let entry = Entry { proposal, registry: NullifierRegistry::new(proposal_id) };
    ledger.put(entry);
    proof {
        use_type_invariant(&*ledger);
        lemma_view_well_formed(ledger.entries@);
        let next = view_of(before).initialize_proposal(
            accounts,
            proposal_id,
            merkle_root,
            execution_amount,
            creator_commitment,
        )->Ok_0;
        assert(ledger@.proposals =~= next.proposals);
        assert(ledger@.ballots =~= next.ballots);
    }
    Ok(())
}

/// Accepts one encrypted ballot: stores it under its nullifier and counts it. A nullifier buys
/// one ballot per proposal; a second ballot under it is refused with `DuplicateVote`. The ballot
/// itself is not read.
pub fn submit_vote(
    ledger: &mut Ledger,
    accounts: SubmitVote,
    nullifier: Bytes32,
    ciphertext: Vec<u8>,
    pubkey: Bytes32,
    nonce: u128,
) -> (result: Result<(), ErrorCode>)
    ensures
        final(ledger)@.well_formed(),
        match old(ledger)@.submit_vote(accounts, nullifier, ciphertext@, pubkey, nonce) {
            Ok(next) => result == Ok::<(), ErrorCode>(()) && final(ledger)@ == next,
            Err(e) => result == Err::<(), ErrorCode>(e) && final(ledger)@ == old(ledger)@,
        },
{
    let ghost before = ledger.entries@;
    let mut entry = match ledger.take(accounts.proposal) {
        Some(entry) => entry,
        None => {
            proof {
                assert(ledger.entries@ =~= before);
                lemma_view_well_formed(before);
            }
            return Err(ErrorCode::ProposalNotFound);
        },
    };
    let ghost stored = entry;
    let verdict = if entry.registry.contains(&nullifier) {
        Err(ErrorCode::DuplicateVote)
    } else if !verify_inclusion(&entry.proposal.merkle_root, &nullifier) {
        Err(ErrorCode::Unauthorized)
    } else {
        match entry.proposal.record_vote() {
            Ok(()) => entry.registry.register(nullifier, ciphertext, pubkey, nonce),
            Err(e) => Err(e),
        }
    };
    ledger.put(entry);
    proof {
        use_type_invariant(&*ledger);
        lemma_view_well_formed(ledger.entries@);
        match view_of(before).submit_vote(accounts, nullifier, ciphertext@, pubkey, nonce) {
            Ok(next) => {
                assert(ledger@.proposals =~= next.proposals);
                assert(ledger@.ballots =~= next.ballots);
            },
            Err(_) => {
                assert(entry == stored);
                assert(ledger.entries@ =~= before);
            },
        }
    }
    verdict
}

/// Records the tally that the authority reports for its proposal. The figure is taken on
/// trust: it is not held against the ballots.
pub fn set_tally(ledger: &mut Ledger, accounts: SetTally, tally: u8) -> (result: Result<
    (),
    ErrorCode,
>)
    ensures
        final(ledger)@.well_formed(),
        match old(ledger)@.set_tally(accounts, tally) {
            Ok(next) => result == Ok::<(), ErrorCode>(()) && final(ledger)@ == next,
            Err(e) => result == Err::<(), ErrorCode>(e) && final(ledger)@ == old(ledger)@,
        },
{
    let ghost before = ledger.entries@;
    let mut entry = match ledger.take(accounts.proposal) {
        Some(entry) => entry,
        None => {
            proof {
                assert(ledger.entries@ =~= before);
                lemma_view_well_formed(before);
            }
            return Err(ErrorCode::ProposalNotFound);
        },
    };
    let ghost stored = entry;
    let result = entry.proposal.set_tally(&accounts.authority, tally);
    ledger.put(entry);
    proof {
        use_type_invariant(&*ledger);
        lemma_view_well_formed(ledger.entries@);
        lemma_proposal_replaced(before, stored, entry);
    }
    result
}

/// Settles a proposal on the tally on record, for its authority: sets the latch and returns the
/// one transfer to carry out. The ledger applies both in one atomic step, or neither.
pub fn finalize_execution(ledger: &mut Ledger, accounts: ExecuteProposal) -> (result: Result<
    TransferChecked,
    ErrorCode,
>)
    ensures
        final(ledger)@.well_formed(),
        match old(ledger)@.finalize_execution(accounts) {
            Ok(next) => result == Ok::<TransferChecked, ErrorCode>(
                old(ledger)@.proposals[accounts.proposal].settlement(accounts.decimals),
            ) && final(ledger)@ == next,
            Err(e) => result == Err::<TransferChecked, ErrorCode>(e) && final(ledger)@ == old(
                ledger,
            )@,
        },
{
    let ghost before = ledger.entries@;
    let mut entry = match ledger.take(accounts.proposal) {
        Some(entry) => entry,
        None => {
            proof {
                assert(ledger.entries@ =~= before);
                lemma_view_well_formed(before);
            }
            return Err(ErrorCode::ProposalNotFound);
        },
    };
    let ghost stored = entry;
    let result = entry.proposal.execute(&accounts.authority, accounts.decimals);
    ledger.put(entry);
    proof {
        use_type_invariant(&*ledger);
        lemma_view_well_formed(ledger.entries@);
        lemma_proposal_replaced(before, stored, entry);
    }
    result
}

/// Settles a proposal on a relayed tally that comes with a proof. Anyone may relay. The checks
/// come in this order: the latch, the presence of the proof, the quorum, the majority. On
/// success the passing tally is recorded, the latch is set and the one transfer to carry out is
/// returned. The ledger applies all of it in one atomic step, or nothing.
pub fn finalize_proposal(
    ledger: &mut Ledger,
    accounts: FinalizeProposal,
    proof: Vec<u8>,
    yes_votes: u64,
    no_votes: u64,
    threshold: u64,
    quorum: u64,
) -> (result: Result<TransferChecked, ErrorCode>)
    ensures
        final(ledger)@.well_formed(),
        match old(ledger)@.finalize_proposal(
            accounts,
            proof@,
            yes_votes,
            no_votes,
            threshold,
            quorum,
        ) {
            Ok(next) => result == Ok::<TransferChecked, ErrorCode>(
                old(ledger)@.proposals[accounts.proposal].settlement(accounts.decimals),
            ) && final(ledger)@ == next,
            Err(e) => result == Err::<TransferChecked, ErrorCode>(e) && final(ledger)@ == old(
                ledger,
            )@,
        },
{
    let ghost before = ledger.entries@;
    let mut entry = match ledger.take(accounts.proposal) {
        Some(entry) => entry,
        None => {
            proof {
                assert(ledger.entries@ =~= before);
                lemma_view_well_formed(before);
            }
            return Err(ErrorCode::ProposalNotFound);
        },
    };
    let ghost stored = entry;
    let result = entry.proposal.finalize(
        &proof,
        yes_votes,
        no_votes,
        threshold,
        quorum,
        accounts.decimals,
    );
    ledger.put(entry);
    proof {
        use_type_invariant(&*ledger);
        lemma_view_well_formed(ledger.entries@);
        lemma_proposal_replaced(before, stored, entry);
    }
    result
}

/// Carries out one instruction, whichever it is.
pub fn process(ledger: &mut Ledger, instruction: Instruction) -> (result: Result<
    Option<TransferChecked>,
    ErrorCode,
>)
    ensures
        final(ledger)@.well_formed(),
        final(ledger)@ == old(ledger)@.apply(instruction),
        result == old(ledger)@.outcome(instruction),
{
    match instruction {
        Instruction::InitializeProposal {
            accounts,
            proposal_id,
            merkle_root,
            execution_amount,
            creator_commitment,
        } => match initialize_proposal(
            ledger,
            accounts,
            proposal_id,
            merkle_root,
            execution_amount,
            creator_commitment,
        ) {
            Ok(()) => Ok(None),
            Err(e) => Err(e),
        },
        Instruction::SubmitVote {
            accounts,
            nullifier,
            ciphertext,
            pubkey,
            nonce,
        } => match submit_vote(ledger, accounts, nullifier, ciphertext, pubkey, nonce) {
            Ok(()) => Ok(None),
            Err(e) => Err(e),
        },
        Instruction::SetTally { accounts, tally } => match set_tally(ledger, accounts, tally) {
            Ok(()) => Ok(None),
            Err(e) => Err(e),
        },
        Instruction::FinalizeExecution { accounts } => match finalize_execution(ledger, accounts) {
            Ok(transfer) => Ok(Some(transfer)),
            Err(e) => Err(e),
        },
        Instruction::FinalizeProposal {
            accounts,
            proof,
            yes_votes,
            no_votes,
            threshold,
            quorum,
        } => match finalize_proposal(
            ledger,
            accounts,
            proof,
            yes_votes,
            no_votes,
            threshold,
            quorum,
        ) {
            Ok(transfer) => Ok(Some(transfer)),
            Err(e) => Err(e),
        },
    }
}

/// Putting an entry back with its proposal changed, or unchanged, is `with_proposal` on the
/// view.
proof fn lemma_proposal_replaced(before: Map<u64, Entry>, stored: Entry, changed: Entry)
    requires
        before.contains_key(stored.proposal.proposal_id),
        before[stored.proposal.proposal_id] == stored,
        changed.registry == stored.registry,
        changed.proposal.proposal_id == stored.proposal.proposal_id,
    ensures
        ({
            let id = stored.proposal.proposal_id;
            let after = view_of(before.remove(id).insert(id, changed));
            &&& after == view_of(before).with_proposal(id, changed.proposal)
            &&& changed == stored ==> after == view_of(before)
        }),
{
    let id = stored.proposal.proposal_id;
    let after = view_of(before.remove(id).insert(id, changed));
    let expected = view_of(before).with_proposal(id, changed.proposal);
    assert(after.proposals =~= expected.proposals);
    assert(after.ballots =~= expected.ballots);
    if changed == stored {
        assert(before.remove(id).insert(id, changed) =~= before);
    }
}

} // verus!
