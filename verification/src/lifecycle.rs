use vstd::prelude::*;
use crate::error::ErrorCode;
use crate::model::{Instruction, LedgerView};
use crate::registry::{one_ballot_per_nullifier, spent, spent_nullifiers};
use crate::state::{Bytes32, NullifierRecord, TransferChecked};

verus! {

/// A ballot under a fresh nullifier keeps the ballots of a proposal one per nullifier.
pub proof fn lemma_fresh_ballot_fits(records: Seq<NullifierRecord>, record: NullifierRecord)
    requires
        one_ballot_per_nullifier(record.proposal, records),
        !spent(records, record.nullifier),
    ensures
        one_ballot_per_nullifier(record.proposal, records.push(record)),
{
    let after = records.push(record);
    assert forall|i: int, j: int| 0 <= i < j < after.len() implies (#[trigger] after[i]).nullifier
        != (#[trigger] after[j]).nullifier by {
        if j == records.len() {
            assert(records[i].nullifier != record.nullifier);
        } else {
            assert(records[i].nullifier != records[j].nullifier);
        }
    }
}

/// No instruction leads out of the well-formed ledgers.
pub proof fn lemma_apply_keeps_well_formed(s: LedgerView, instruction: Instruction)
    requires
        s.well_formed(),
    ensures
        s.apply(instruction).well_formed(),
{
    let next = s.apply(instruction);
    if s.step(instruction) is Ok {
        let p = instruction.proposal();
        match instruction {
            Instruction::InitializeProposal { .. } => {
                assert(next.proposals.dom() =~= s.proposals.dom().insert(p));
                assert(next.ballots.dom() =~= s.ballots.dom().insert(p));
            },
            Instruction::SubmitVote { nullifier, ciphertext, pubkey, nonce, .. } => {
                assert(next.proposals.dom() =~= s.proposals.dom());
                assert(next.ballots.dom() =~= s.ballots.dom());
                let ciphertext = ciphertext@;
                lemma_fresh_ballot_fits(
                    s.ballots[p],
                    NullifierRecord { proposal: p, nullifier, ciphertext, pubkey, nonce },
                );
            },
            _ => {
                assert(next.proposals.dom() =~= s.proposals.dom());
            },
        }
        assert forall|q: u64| #[trigger] next.proposals.contains_key(q) implies {
            &&& next.proposals[q].proposal_id == q
            &&& next.proposals[q].well_formed()
            &&& next.proposals[q].vote_count == next.ballots[q].len()
            &&& one_ballot_per_nullifier(q, next.ballots[q])
        } by {
            if q != p {
                assert(s.proposals.contains_key(q));
            }
        }
    }
}

/// Every ledger reached by instructions from a well-formed one is well formed.
pub proof fn lemma_run_keeps_well_formed(s: LedgerView, instructions: Seq<Instruction>)
    requires
        s.well_formed(),
    ensures
        s.run(instructions).well_formed(),
    decreases instructions.len(),
{
    if instructions.len() > 0 {
        lemma_run_keeps_well_formed(s, instructions.drop_last());
        lemma_apply_keeps_well_formed(s.run(instructions.drop_last()), instructions.last());
    }
}

/// Whether an instruction settles `proposal`: its latch is unset before and set after.
pub open spec fn settles(s: LedgerView, instruction: Instruction, proposal: u64) -> bool {
    !s.is_executed(proposal) && s.apply(instruction).is_executed(proposal)
}

/// The number of instructions in a run that settle `proposal`.
pub open spec fn settlements(s: LedgerView, instructions: Seq<Instruction>, proposal: u64) -> nat
    decreases instructions.len(),
{
    if instructions.len() == 0 {
        0
    } else {
        let earlier = instructions.drop_last();
        settlements(s, earlier, proposal) + if settles(
            s.run(earlier),
            instructions.last(),
            proposal,
        ) {
            1nat
        } else {
            0nat
        }
    }
}

/// An instruction changes at most the proposal that it is about and the ballots cast on it,
/// and leaves that proposal in place with the terms it had. A settled proposal stays settled.
pub proof fn lemma_apply_touches_one_proposal(
    s: LedgerView,
    instruction: Instruction,
    proposal: u64,
)
    requires
        s.proposals.contains_key(proposal),
    ensures
        s.apply(instruction).proposals.contains_key(proposal),
        s.apply(instruction).proposals[proposal].same_terms(s.proposals[proposal]),
        s.proposals[proposal].is_executed ==> s.apply(instruction).proposals[proposal].is_executed,
        proposal != instruction.proposal() ==> s.apply(instruction).proposals[proposal]
            == s.proposals[proposal] && s.apply(instruction).ballots[proposal]
            == s.ballots[proposal],
{
    match instruction {
        Instruction::InitializeProposal { .. } => {},
        Instruction::SubmitVote { .. } => {},
        Instruction::SetTally { .. } => {},
        Instruction::FinalizeExecution { .. } => {},
        Instruction::FinalizeProposal { .. } => {},
    }
}

/// The latch is never cleared: no instruction takes a settled proposal back.
pub proof fn lemma_executed_stays_executed(
    s: LedgerView,
    instructions: Seq<Instruction>,
    proposal: u64,
)
    requires
        s.is_executed(proposal),
    ensures
        s.run(instructions).is_executed(proposal),
    decreases instructions.len(),
{
    if instructions.len() > 0 {
        lemma_executed_stays_executed(s, instructions.drop_last(), proposal);
        lemma_apply_touches_one_proposal(
            s.run(instructions.drop_last()),
            instructions.last(),
            proposal,
        );
    }
}

/// The latch is set at most once: in any run at most one instruction settles a given
/// proposal, none if it was settled before the run, and a proposal that was settled in the run
/// is settled at its end.
pub proof fn lemma_settled_at_most_once(
    s: LedgerView,
    instructions: Seq<Instruction>,
    proposal: u64,
)
    ensures
        settlements(s, instructions, proposal) <= 1,
        s.is_executed(proposal) ==> settlements(s, instructions, proposal) == 0,
        settlements(s, instructions, proposal) == 1 ==> s.run(instructions).is_executed(proposal),
    decreases instructions.len(),
{
    if instructions.len() > 0 {
        let earlier = instructions.drop_last();
        lemma_settled_at_most_once(s, earlier, proposal);
        if s.is_executed(proposal) {
            lemma_executed_stays_executed(s, earlier, proposal);
        }
        if s.run(earlier).is_executed(proposal) {
            lemma_apply_touches_one_proposal(s.run(earlier), instructions.last(), proposal);
        }
    }
}

/// A transfer is handed out exactly by the instruction that sets the latch, and it is the
/// transfer bound to the proposal at initialization: the funds move when the latch is set,
/// and never otherwise.
pub proof fn lemma_transfer_exactly_on_settlement(
    s: LedgerView,
    instruction: Instruction,
    proposal: u64,
)
    requires
        s.well_formed(),
    ensures
        settles(s, instruction, proposal) <==> (s.outcome(instruction) matches Ok(Some(transfer))
            && transfer.authority == proposal),
        s.outcome(instruction) matches Ok(Some(transfer)) ==> {
            let settled = s.proposals[transfer.authority];
            &&& s.proposals.contains_key(transfer.authority)
            &&& transfer.mint == settled.treasury_mint
            &&& transfer.target_wallet == settled.target_wallet
            &&& transfer.amount == settled.execution_amount
            &&& transfer.amount > 0
        },
{
    let p = instruction.proposal();
    if s.step(instruction) is Ok {
        if proposal != p {
            assert(s.apply(instruction).proposals.contains_key(proposal)
                == s.proposals.contains_key(proposal));
        }
    }
}

/// What initialization binds to a proposal stays bound to it: no instruction removes a
/// proposal or changes its identifier, its manager, its eligibility snapshot, its assets, its
/// payout or the recipient.
pub proof fn lemma_terms_are_fixed(s: LedgerView, instructions: Seq<Instruction>, proposal: u64)
    requires
        s.proposals.contains_key(proposal),
    ensures
        s.run(instructions).proposals.contains_key(proposal),
        s.run(instructions).proposals[proposal].same_terms(s.proposals[proposal]),
    decreases instructions.len(),
{
    if instructions.len() > 0 {
        lemma_terms_are_fixed(s, instructions.drop_last(), proposal);
        lemma_apply_touches_one_proposal(
            s.run(instructions.drop_last()),
            instructions.last(),
            proposal,
        );
    }
}

/// Ballots are permanent: the ballots cast on a proposal before a run are its first ballots
/// after the run, unchanged and in the same order.
pub proof fn lemma_ballots_are_permanent(
    s: LedgerView,
    instructions: Seq<Instruction>,
    proposal: u64,
)
    requires
        s.proposals.contains_key(proposal),
    ensures
        s.ballots[proposal].is_prefix_of(s.run(instructions).ballots[proposal]),
    decreases instructions.len(),
{
    if instructions.len() > 0 {
        let earlier = s.run(instructions.drop_last());
        lemma_ballots_are_permanent(s, instructions.drop_last(), proposal);
        lemma_terms_are_fixed(s, instructions.drop_last(), proposal);
        lemma_apply_touches_one_proposal(earlier, instructions.last(), proposal);
        match instructions.last() {
            Instruction::InitializeProposal { .. } => {},
            Instruction::SubmitVote { .. } => {},
            Instruction::SetTally { .. } => {},
            Instruction::FinalizeExecution { .. } => {},
            Instruction::FinalizeProposal { .. } => {},
        }
        assert(earlier.ballots[proposal].is_prefix_of(s.run(instructions).ballots[proposal]));
    }
}

/// A spent nullifier stays spent, whatever happens later.
pub proof fn lemma_spent_stays_spent(
    s: LedgerView,
    instructions: Seq<Instruction>,
    proposal: u64,
    nullifier: Bytes32,
)
    requires
        s.has_nullifier(proposal, nullifier),
    ensures
        s.run(instructions).has_nullifier(proposal, nullifier),
{
    lemma_ballots_are_permanent(s, instructions, proposal);
    lemma_terms_are_fixed(s, instructions, proposal);
    let i = choose|i: int|
        0 <= i < s.ballots[proposal].len() && (#[trigger] s.ballots[proposal][i]).nullifier
            == nullifier;
    assert(s.run(instructions).ballots[proposal][i] == s.ballots[proposal][i]);
}

/// A nullifier buys one ballot: once a ballot was accepted under it, every later ballot on the
/// same proposal under the same nullifier is refused with `DuplicateVote`, whatever happened
/// in between, and the refusal changes nothing, the vote count included.
pub proof fn lemma_one_ballot_per_nullifier(
    s: LedgerView,
    first: Instruction,
    between: Seq<Instruction>,
    second: Instruction,
)
    requires
        first is SubmitVote,
        second is SubmitVote,
        first.proposal() == second.proposal(),
        first->SubmitVote_nullifier == second->SubmitVote_nullifier,
        s.step(first) is Ok,
    ensures
        s.apply(first).run(between).outcome(second) == Err::<Option<TransferChecked>, ErrorCode>(
            ErrorCode::DuplicateVote,
        ),
        s.apply(first).run(between).apply(second) == s.apply(first).run(between),
{
    let p = first.proposal();
    let n = first->SubmitVote_nullifier;
    let accepted = s.apply(first);
    assert(accepted.has_nullifier(p, n)) by {
        let last = s.ballots[p].len() as int;
        assert(accepted.ballots[p][last].nullifier == n);
    }
    lemma_spent_stays_spent(accepted, between, p, n);
}

/// A vote is counted with its ballot and at no other time: an instruction raises the vote
/// count of a proposal by one if it is an accepted ballot on that proposal, and else leaves
/// the count as it is. The number of ballots stored for the proposal moves in step.
pub proof fn lemma_vote_counted_with_its_ballot(
    s: LedgerView,
    instruction: Instruction,
    proposal: u64,
)
    requires
        s.proposals.contains_key(proposal),
    ensures
        ({
            let accepted: int = if instruction is SubmitVote && instruction.proposal() == proposal
                && s.step(instruction) is Ok {
                1
            } else {
                0
            };
            let next = s.apply(instruction);
            &&& next.proposals[proposal].vote_count == s.proposals[proposal].vote_count + accepted
            &&& next.ballots[proposal].len() == s.ballots[proposal].len() + accepted
        }),
{
    match instruction {
        Instruction::InitializeProposal { .. } => {},
        Instruction::SubmitVote { .. } => {},
        Instruction::SetTally { .. } => {},
        Instruction::FinalizeExecution { .. } => {},
        Instruction::FinalizeProposal { .. } => {},
    }
}

/// Ballots under nullifiers that are all different spend as many nullifiers as there are
/// ballots.
pub proof fn lemma_count_of_spent_nullifiers(proposal: u64, records: Seq<NullifierRecord>)
    requires
        one_ballot_per_nullifier(proposal, records),
    ensures
        spent_nullifiers(records).finite(),
        spent_nullifiers(records).len() == records.len(),
    decreases records.len(),
{
    if records.len() == 0 {
        assert(spent_nullifiers(records) =~= Set::<Bytes32>::empty());
    } else {
        let earlier = records.drop_last();
        let last = records.last();
        lemma_count_of_spent_nullifiers(proposal, earlier);
        assert forall|n: Bytes32| spent_nullifiers(earlier).insert(last.nullifier).contains(n)
            implies spent_nullifiers(records).contains(n) by {
            if n == last.nullifier {
                assert(records[records.len() - 1].nullifier == n);
            } else {
                let i = choose|i: int|
                    0 <= i < earlier.len() && (#[trigger] earlier[i]).nullifier == n;
                assert(records[i].nullifier == n);
            }
        }
        assert forall|n: Bytes32| spent_nullifiers(records).contains(n) implies spent_nullifiers(
            earlier,
        ).insert(last.nullifier).contains(n) by {
            let i = choose|i: int| 0 <= i < records.len() && (#[trigger] records[i]).nullifier == n;
            if i < earlier.len() {
                assert(earlier[i].nullifier == n);
            }
        }
        assert(spent_nullifiers(records) =~= spent_nullifiers(earlier).insert(last.nullifier));
        assert(!spent_nullifiers(earlier).contains(last.nullifier)) by {
            if spent(earlier, last.nullifier) {
                let i = choose|i: int|
                    0 <= i < earlier.len() && (#[trigger] earlier[i]).nullifier == last.nullifier;
                assert(records[i].nullifier != records[records.len() - 1].nullifier);
            }
        }
    }
}

/// The vote count of a proposal is the number of nullifiers spent on it.
pub proof fn lemma_vote_count_is_nullifier_count(s: LedgerView, proposal: u64)
    requires
        s.well_formed(),
        s.proposals.contains_key(proposal),
    ensures
        spent_nullifiers(s.ballots[proposal]).finite(),
        s.proposals[proposal].vote_count == spent_nullifiers(s.ballots[proposal]).len(),
        s.proposals[proposal].vote_count == s.ballots[proposal].len(),
{
    lemma_count_of_spent_nullifiers(proposal, s.ballots[proposal]);
}

/// On every ledger that instructions build up from nothing, the vote count of a proposal is
/// the number of nullifiers ever spent on it: each accepted ballot was counted once, and
/// nothing else was.
pub proof fn lemma_votes_counted_from_the_start(instructions: Seq<Instruction>, proposal: u64)
    requires
        LedgerView::empty().run(instructions).proposals.contains_key(proposal),
    ensures
        ({
            let s = LedgerView::empty().run(instructions);
            &&& s.well_formed()
            &&& spent_nullifiers(s.ballots[proposal]).finite()
            &&& s.proposals[proposal].vote_count == spent_nullifiers(s.ballots[proposal]).len()
        }),
{
    assert(LedgerView::empty().well_formed());
    lemma_run_keeps_well_formed(LedgerView::empty(), instructions);
    lemma_vote_count_is_nullifier_count(LedgerView::empty().run(instructions), proposal);
}

} // verus!
