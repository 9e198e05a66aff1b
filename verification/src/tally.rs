use vstd::prelude::*;
use crate::error::ErrorCode;

verus! {

/// One decrypted ballot as the aggregator sees it.
#[derive(Debug, Clone, Copy, PartialEq, Eq)]
pub struct InputValues {
    /// Voting weight: one credit is one vote.
    pub v1: u64,
    /// Choice: 1 is yes, anything else is no.
    pub v2: u64,
}

/// What one ballot adds to the yes tally: its weight if it says yes, nothing otherwise.
pub open spec fn contribution(input: InputValues) -> nat {
    if input.v2 == 1 {
        input.v1 as nat
    } else {
        0
    }
}

/// The yes tally of a batch of ballots: the sum of their contributions.
pub open spec fn tally_of(ballots: Seq<InputValues>) -> nat
    decreases ballots.len(),
{
    if ballots.len() == 0 {
        0
    } else {
        tally_of(ballots.drop_last()) + contribution(ballots.last())
    }
}

/// The choice filter applied to one ballot.
pub fn add_together(input: InputValues) -> (result: u64)
    ensures
        result == contribution(input),
{
    if input.v2 == 1 {
        input.v1
    } else {
        0
    }
}

/// The yes tally of a whole batch, or `ArithmeticOverflow` when it does not fit in 64 bits.
pub fn aggregate(ballots: &Vec<InputValues>) -> (result: Result<u64, ErrorCode>)
    ensures
        result == (if tally_of(ballots@) <= u64::MAX {
            Ok::<u64, ErrorCode>(tally_of(ballots@) as u64)
        } else {
            Err(ErrorCode::ArithmeticOverflow)
        }),
{
    let mut total: u64 = 0;
    let mut i: usize = 0;
    while i < ballots.len()
        invariant
            i <= ballots.len(),
            total == tally_of(ballots@.subrange(0, i as int)),
        decreases ballots.len() - i,
    {
        let share = add_together(ballots[i]);
        proof {
            let done = ballots@.subrange(0, i as int);
            let next = ballots@.subrange(0, i + 1);
            let rest = ballots@.subrange(i + 1, ballots.len() as int);
            assert(next.drop_last() =~= done);
            assert(next.last() == ballots[i as int]);
            assert(ballots@ =~= next + rest);
            lemma_tally_concat(next, rest);
        }
        match total.checked_add(share) {
            Some(sum) => {
                total = sum;
            },
            None => {
                return Err(ErrorCode::ArithmeticOverflow);
            },
        }
        i += 1;
    }
    assert(ballots@.subrange(0, i as int) =~= ballots@);
    Ok(total)
}

/// A running yes tally over ballots taken one at a time or batch by batch.
pub struct Tally {
    total: u64,
    counted: Ghost<Seq<InputValues>>,
}

impl View for Tally {
    type V = Seq<InputValues>;

    /// The ballots counted so far, in the order in which they were taken.
    closed spec fn view(&self) -> Seq<InputValues> {
        self.counted@
    }
}

impl Tally {
    #[verifier::type_invariant]
    spec fn sums_its_ballots(self) -> bool {
        self.total == tally_of(self.counted@)
    }

    /// A tally over no ballots.
    pub fn new() -> (tally: Tally)
        ensures
            tally@ == Seq::<InputValues>::empty(),
    {
        Tally { total: 0, counted: Ghost(Seq::empty()) }
    }

    /// Counts one more ballot. On overflow nothing is counted.
    pub fn absorb(&mut self, input: InputValues) -> (result: Result<(), ErrorCode>)
        ensures
            result == (if tally_of(old(self)@.push(input)) <= u64::MAX {
                Ok::<(), ErrorCode>(())
            } else {
                Err(ErrorCode::ArithmeticOverflow)
            }),
            result is Ok ==> final(self)@ == old(self)@.push(input),
            result is Err ==> final(self)@ == old(self)@,
    {
        proof {
            use_type_invariant(&*self);
            assert(self.counted@.push(input).drop_last() =~= self.counted@);
        }
        match self.total.checked_add(add_together(input)) {
            Some(sum) => {
                *self = Tally { total: sum, counted: Ghost(self.counted@.push(input)) };
                Ok(())
            },
            None => Err(ErrorCode::ArithmeticOverflow),
        }
    }

    /// Counts the ballots of another tally after those of this one. On overflow nothing is
    /// counted.
    pub fn merge(&mut self, other: &Tally) -> (result: Result<(), ErrorCode>)
        ensures
            result == (if tally_of(old(self)@ + other@) <= u64::MAX {
                Ok::<(), ErrorCode>(())
            } else {
                Err(ErrorCode::ArithmeticOverflow)
            }),
            result is Ok ==> final(self)@ == old(self)@ + other@,
            result is Err ==> final(self)@ == old(self)@,
    {
        proof {
            use_type_invariant(&*self);
            use_type_invariant(other);
            lemma_tally_concat(self.counted@, other.counted@);
        }
        match self.total.checked_add(other.total) {
            Some(sum) => {
                *self = Tally { total: sum, counted: Ghost(self.counted@ + other.counted@) };
                Ok(())
            },
            None => Err(ErrorCode::ArithmeticOverflow),
        }
    }

    /// The aggregate, the one number that leaves the aggregator.
    pub fn revealed(&self) -> (total: u64)
        ensures
            total == tally_of(self@),
    {
        proof {
            use_type_invariant(self);
        }
        self.total
    }
}

/// The tally of two batches taken together is the sum of their tallies.
pub proof fn lemma_tally_concat(a: Seq<InputValues>, b: Seq<InputValues>)
    ensures
        tally_of(a + b) == tally_of(a) + tally_of(b),
    decreases b.len(),
{
    if b.len() == 0 {
        assert(a + b =~= a);
    } else {
        lemma_tally_concat(a, b.drop_last());
        assert((a + b).drop_last() =~= a + b.drop_last());
        assert((a + b).last() == b.last());
    }
}

/// Taking one ballot out of a batch lowers the tally by that ballot's contribution.
pub proof fn lemma_tally_remove(ballots: Seq<InputValues>, i: int)
    requires
        0 <= i < ballots.len(),
    ensures
        tally_of(ballots) == tally_of(ballots.remove(i)) + contribution(ballots[i]),
{
    let head = ballots.subrange(0, i);
    let one = seq![ballots[i]];
    let tail = ballots.subrange(i + 1, ballots.len() as int);
    assert(ballots =~= head + one + tail);
    assert(ballots.remove(i) =~= head + tail);
    lemma_tally_concat(head + one, tail);
    lemma_tally_concat(head, one);
    lemma_tally_concat(head, tail);
    assert(tally_of(one) == contribution(ballots[i])) by {
        assert(one.drop_last().len() == 0);
        assert(tally_of(one.drop_last()) == 0);
        assert(one.last() == ballots[i]);
    }
}

/// The tally does not depend on the order in which the ballots are taken: two batches that hold
/// the same ballots, each as often as the other, have the same tally.
pub proof fn lemma_tally_order_independent(a: Seq<InputValues>, b: Seq<InputValues>)
    requires
        a.to_multiset() == b.to_multiset(),
    ensures
        tally_of(a) == tally_of(b),
    decreases a.len(),
{
    broadcast use vstd::seq_lib::group_to_multiset_ensures;
    a.to_multiset_ensures();
    b.to_multiset_ensures();
    if a.len() == 0 {
        assert(b.len() == 0);
    } else {
        let x = a.last();
        assert(a.to_multiset().count(x) > 0);
        assert(b.contains(x));
        let i = b.index_of(x);
        assert(a.drop_last() =~= a.remove(a.len() - 1));
        assert(a.drop_last().to_multiset() =~= a.to_multiset().remove(x));
        assert(b.remove(i).to_multiset() =~= b.to_multiset().remove(x));
        lemma_tally_order_independent(a.drop_last(), b.remove(i));
        lemma_tally_remove(b, i);
    }
}

} // verus!
