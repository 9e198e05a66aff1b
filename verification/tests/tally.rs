use solvote::{add_together, aggregate, ErrorCode, InputValues, Tally};

fn ballot(weight: u64, choice: u64) -> InputValues {
    InputValues { v1: weight, v2: choice }
}

#[test]
fn add_together_counts_the_weight_of_a_yes() {
    assert_eq!(add_together(ballot(7, 1)), 7);
    assert_eq!(add_together(ballot(u64::MAX, 1)), u64::MAX);
    assert_eq!(add_together(ballot(0, 1)), 0);
}

#[test]
fn add_together_counts_nothing_for_any_other_choice() {
    assert_eq!(add_together(ballot(7, 0)), 0);
    assert_eq!(add_together(ballot(7, 2)), 0);
    assert_eq!(add_together(ballot(7, u64::MAX)), 0);
}

#[test]
fn aggregate_sums_the_yes_weights() {
    let ballots = vec![ballot(10, 1), ballot(5, 0), ballot(7, 1), ballot(3, 9)];
    assert_eq!(aggregate(&ballots), Ok(17));
}

#[test]
fn aggregate_of_no_ballots_is_zero() {
    assert_eq!(aggregate(&Vec::new()), Ok(0));
}

#[test]
fn aggregate_reaches_the_largest_total() {
    let ballots = vec![ballot(u64::MAX - 1, 1), ballot(1, 1), ballot(50, 0)];
    assert_eq!(aggregate(&ballots), Ok(u64::MAX));
}

#[test]
fn aggregate_refuses_a_total_beyond_64_bits() {
    let ballots = vec![ballot(u64::MAX, 1), ballot(5, 0), ballot(1, 1)];
    assert_eq!(aggregate(&ballots), Err(ErrorCode::ArithmeticOverflow));
}

#[test]
fn aggregate_does_not_depend_on_the_order() {
    let a = ballot(10, 1);
    let b = ballot(5, 0);
    let c = ballot(7, 1);
    let orders = vec![
        vec![a, b, c],
        vec![a, c, b],
        vec![b, a, c],
        vec![b, c, a],
        vec![c, a, b],
        vec![c, b, a],
    ];
    for order in &orders {
        assert_eq!(aggregate(order), Ok(17));
    }
}

#[test]
fn overflow_does_not_depend_on_the_order() {
    let big = ballot(u64::MAX, 1);
    let one = ballot(1, 1);
    let no = ballot(9, 0);
    assert_eq!(aggregate(&vec![big, one, no]), Err(ErrorCode::ArithmeticOverflow));
    assert_eq!(aggregate(&vec![one, no, big]), Err(ErrorCode::ArithmeticOverflow));
    assert_eq!(aggregate(&vec![no, big, one]), Err(ErrorCode::ArithmeticOverflow));
}

#[test]
fn tally_starts_at_zero() {
    assert_eq!(Tally::new().revealed(), 0);
}

#[test]
fn tally_taken_one_by_one_equals_the_batch() {
    let ballots = vec![ballot(10, 1), ballot(5, 0), ballot(7, 1)];
    let mut tally = Tally::new();
    for b in &ballots {
        assert_eq!(tally.absorb(*b), Ok(()));
    }
    assert_eq!(Ok(tally.revealed()), aggregate(&ballots));
    assert_eq!(tally.revealed(), 17);
}

#[test]
fn tally_merge_adds_the_two_totals() {
    let mut left = Tally::new();
    assert_eq!(left.absorb(ballot(10, 1)), Ok(()));
    assert_eq!(left.absorb(ballot(4, 0)), Ok(()));
    let mut right = Tally::new();
    assert_eq!(right.absorb(ballot(7, 1)), Ok(()));
    assert_eq!(right.absorb(ballot(2, 1)), Ok(()));
    assert_eq!(left.merge(&right), Ok(()));
    assert_eq!(left.revealed(), 19);
    assert_eq!(right.revealed(), 9);
}

#[test]
fn tally_absorb_refuses_overflow_and_keeps_its_total() {
    let mut tally = Tally::new();
    assert_eq!(tally.absorb(ballot(u64::MAX, 1)), Ok(()));
    assert_eq!(tally.absorb(ballot(1, 1)), Err(ErrorCode::ArithmeticOverflow));
    assert_eq!(tally.revealed(), u64::MAX);
    assert_eq!(tally.absorb(ballot(1, 0)), Ok(()));
    assert_eq!(tally.revealed(), u64::MAX);
}

#[test]
fn tally_merge_refuses_overflow_and_keeps_its_total() {
    let mut left = Tally::new();
    assert_eq!(left.absorb(ballot(u64::MAX - 3, 1)), Ok(()));
    let mut right = Tally::new();
    assert_eq!(right.absorb(ballot(4, 1)), Ok(()));
    assert_eq!(left.merge(&right), Err(ErrorCode::ArithmeticOverflow));
    assert_eq!(left.revealed(), u64::MAX - 3);
    let mut small = Tally::new();
    assert_eq!(small.absorb(ballot(3, 1)), Ok(()));
    assert_eq!(left.merge(&small), Ok(()));
    assert_eq!(left.revealed(), u64::MAX);
}
