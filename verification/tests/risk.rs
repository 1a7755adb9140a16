use crc_framework::risk::hazard_limit;
use crc_framework::error::CrcError;
use crc_framework::risk::{branch_choices, spanning_branch_count};

#[test]
fn two_factors_make_four_branches() {
    assert_eq!(spanning_branch_count(2, None).unwrap(), 4);
    assert_eq!(spanning_branch_count(1, None).unwrap(), 2);
    assert_eq!(spanning_branch_count(20, None).unwrap(), 1 << 20);
}

#[test]
fn no_factors_is_invalid_input() {
    let error = spanning_branch_count(0, None).unwrap_err();
    assert_eq!(
        error.message(),
        "invalid input: at least one binary outcome is required"
    );
}

#[test]
fn default_limit_allows_twenty_factors() {
    match spanning_branch_count(21, None).unwrap_err() {
        CrcError::BranchLimitExceeded {
            factors,
            branches,
            limit,
        } => {
            assert_eq!(factors, 21);
            assert_eq!(branches, 1 << 21);
            assert_eq!(limit, 1 << 20);
        }
        other => panic!("unexpected error {:?}", other),
    }
}

#[test]
fn caller_limit_is_enforced() {
    assert_eq!(spanning_branch_count(3, Some(8)).unwrap(), 8);
    match spanning_branch_count(3, Some(7)).unwrap_err() {
        CrcError::BranchLimitExceeded {
            factors,
            branches,
            limit,
        } => {
            assert_eq!((factors, branches, limit), (3, 8, 7));
        }
        other => panic!("unexpected error {:?}", other),
    }
    assert_eq!(spanning_branch_count(40, Some(1 << 41)).unwrap(), 1 << 40);
}

#[test]
fn counts_that_overflow_report_the_maximum() {
    match spanning_branch_count(64, Some(5)).unwrap_err() {
        CrcError::BranchLimitExceeded {
            factors,
            branches,
            limit,
        } => {
            assert_eq!((factors, branches, limit), (64, usize::MAX, 5));
        }
        other => panic!("unexpected error {:?}", other),
    }
    match spanning_branch_count(70, None).unwrap_err() {
        CrcError::BranchLimitExceeded { branches, limit, .. } => {
            assert_eq!((branches, limit), (usize::MAX, usize::MAX));
        }
        other => panic!("unexpected error {:?}", other),
    }
}

#[test]
fn branch_choices_follow_the_mask_bits() {
    assert_eq!(branch_choices(5, 3), vec![true, false, true]);
    assert_eq!(branch_choices(0, 2), vec![false, false]);
    assert_eq!(branch_choices(3, 2), vec![true, true]);
    assert_eq!(branch_choices(6, 4), vec![false, true, true, false]);
}

#[test]
fn branches_make_every_combination_once() {
    let factors = 4;
    let count = spanning_branch_count(factors, None).unwrap();
    let mut seen: Vec<Vec<bool>> = Vec::new();
    for mask in 0..count {
        let choices = branch_choices(mask, factors);
        assert_eq!(choices.len(), factors);
        assert!(!seen.contains(&choices));
        seen.push(choices);
    }
    assert_eq!(seen.len(), 16);
}

#[test]
fn hazard_limits_bound_day_counted_indices() {
    assert_eq!(hazard_limit(4), Some(300));
    assert_eq!(hazard_limit(1), Some(366));
    assert_eq!(hazard_limit(2), Some(366));
    assert_eq!(hazard_limit(8), Some(366));
    assert_eq!(hazard_limit(3), None);
    assert_eq!(hazard_limit(-1), None);
}
