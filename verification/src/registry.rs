use vstd::prelude::*;
use crate::error::ErrorCode;
use crate::state::{same_bytes, Bytes32, NullifierAccount, NullifierRecord};

verus! {

/// Whether the ballots in `records` were all cast on `proposal`, each under a nullifier of its
/// own.
pub open spec fn one_ballot_per_nullifier(proposal: u64, records: Seq<NullifierRecord>) -> bool {
    &&& forall|i: int| 0 <= i < records.len() ==> (#[trigger] records[i]).proposal == proposal
    &&& forall|i: int, j: int|
        0 <= i < j < records.len() ==> (#[trigger] records[i]).nullifier != (
        #[trigger] records[j]).nullifier
}

/// Whether a ballot was cast under `nullifier`.
pub open spec fn spent(records: Seq<NullifierRecord>, nullifier: Bytes32) -> bool {
    exists|i: int| 0 <= i < records.len() && (#[trigger] records[i]).nullifier == nullifier
}

/// The nullifiers under which ballots were cast.
pub open spec fn spent_nullifiers(records: Seq<NullifierRecord>) -> Set<Bytes32> {
    Set::new(|nullifier: Bytes32| spent(records, nullifier))
}

/// The ballots cast on one proposal, in the order of their arrival. A nullifier buys one ballot:
/// a second one under it is refused, and no ballot is ever changed or removed.
pub struct NullifierRegistry {
    proposal: u64,
    records: Vec<NullifierAccount>,
}

impl View for NullifierRegistry {
    type V = Seq<NullifierRecord>;

    closed spec fn view(&self) -> Seq<NullifierRecord> {
        Seq::new(self.records@.len(), |i: int| self.records@[i]@)
    }
}

impl NullifierRegistry {
    #[verifier::type_invariant]
    spec fn inv(self) -> bool {
        one_ballot_per_nullifier(self.proposal, self@)
    }

    /// The proposal whose ballots these are.
    pub closed spec fn scope(self) -> u64 {
        self.proposal
    }

    /// An empty registry for `proposal`.
    pub fn new(proposal: u64) -> (registry: NullifierRegistry)
        ensures
            registry@ == Seq::<NullifierRecord>::empty(),
            registry.scope() == proposal,
            one_ballot_per_nullifier(proposal, registry@),
    {
        NullifierRegistry { proposal, records: Vec::new() }
    }

    /// The proposal whose ballots these are.
    pub fn proposal(&self) -> (proposal: u64)
        ensures
            proposal == self.scope(),
            one_ballot_per_nullifier(proposal, self@),
    {
        proof {
            use_type_invariant(self);
        }
        self.proposal
    }

    /// The number of ballots cast.
    pub fn len(&self) -> (count: usize)
        ensures
            count == self@.len(),
    {
        self.records.len()
    }

    /// The ballot that arrived as number `index`, counted from zero, if there are that many.
    pub fn ballot(&self, index: usize) -> (found: Option<&NullifierAccount>)
        ensures
            found is Some <==> index < self@.len(),
            found matches Some(record) ==> record@ == self@[index as int],
    {
        if index < self.records.len() {
            Some(&self.records[index])
        } else {
            None
        }
    }

    /// The ballot cast under `nullifier`, if there is one.
    pub fn find(&self, nullifier: &Bytes32) -> (found: Option<&NullifierAccount>)
        ensures
            found is Some <==> spent(self@, *nullifier),
            found matches Some(record) ==> record.nullifier == *nullifier && self@.contains(
                record@,
            ),
    {
        let mut i: usize = 0;
        while i < self.records.len()
            invariant
                i <= self.records.len(),
                forall|k: int| 0 <= k < i ==> (#[trigger] self@[k]).nullifier != *nullifier,
            decreases self.records.len() - i,
        {
            if same_bytes(&self.records[i].nullifier, nullifier) {
                assert(self@[i as int] == self.records[i as int]@);
                return Some(&self.records[i]);
            }
            i += 1;
        }
        None
    }

    /// Whether a ballot was cast under `nullifier`.
    pub fn contains(&self, nullifier: &Bytes32) -> (used: bool)
        ensures
            used == spent(self@, *nullifier),
    {
        self.find(nullifier).is_some()
    }

    /// Stores a ballot under `nullifier`, unless one is stored under it already: then the
    /// ballot is refused with `DuplicateVote` and nothing changes.
    pub fn register(
        &mut self,
        nullifier: Bytes32,
        ciphertext: Vec<u8>,
        pubkey: Bytes32,
        nonce: u128,
    ) -> (result: Result<(), ErrorCode>)
        ensures
            final(self).scope() == old(self).scope(),
            one_ballot_per_nullifier(final(self).scope(), final(self)@),
            result == (if spent(old(self)@, nullifier) {
                Err::<(), ErrorCode>(ErrorCode::DuplicateVote)
            } else {
                Ok(())
            }),
            result is Ok ==> final(self)@ == old(self)@.push(
                NullifierRecord {
                    proposal: old(self).scope(),
                    nullifier,
                    ciphertext: ciphertext@,
                    pubkey,
                    nonce,
                },
            ),
            result is Err ==> final(self)@ == old(self)@,
    {
        proof {
            use_type_invariant(&*self);
        }
        if self.contains(&nullifier) {
            return Err(ErrorCode::DuplicateVote);
        }
        let ghost before = self@;
        let record = NullifierAccount {
            proposal: self.proposal,
            nullifier,
            ciphertext,
            pubkey,
            nonce,
        };
        let mut records: Vec<NullifierAccount> = Vec::new();
        std::mem::swap(&mut self.records, &mut records);
        records.push(record);
        proof {
            let after = Seq::new(records@.len(), |i: int| records@[i]@);
            assert(after =~= before.push(record@));
            assert forall|i: int, j: int| 0 <= i < j < after.len() implies (
            #[trigger] after[i]).nullifier != (#[trigger] after[j]).nullifier by {
                if j == before.len() {
                    assert(before[i].nullifier != nullifier);
                } else {
                    assert(before[i].nullifier != before[j].nullifier);
                }
            }
            assert(one_ballot_per_nullifier(self.proposal, after));
        }
        self.records = records;
        Ok(())
    }
}

} // verus!
