use proof_of_heart::revenue::{contributor_due, contributor_pool, fee_amount, trunc_div};

#[test]
fn test_contributor_pool_values() {
    assert_eq!(contributor_pool(5000, 2000), 1000);
    assert_eq!(contributor_pool(0, 5000), 0);
    assert_eq!(contributor_pool(9999, 5000), 4999);
    assert_eq!(contributor_pool(12345, 0), 0);
    assert_eq!(contributor_pool(3, 3333), 0);
}

#[test]
fn test_contributor_due_values() {
    assert_eq!(contributor_due(1000, 1000, 2000), 500);
    assert_eq!(contributor_due(2000, 1000, 2000), 1000);
    assert_eq!(contributor_due(1, 10, 3), 3);
    assert_eq!(contributor_due(5, 0, 7), 0);
}

#[test]
fn test_fee_amount_values() {
    assert_eq!(fee_amount(1000, 300), 30);
    assert_eq!(fee_amount(1234, 1000), 123);
    assert_eq!(fee_amount(99, 300), 2);
}

#[test]
fn test_trunc_div_rounds_toward_zero() {
    assert_eq!(trunc_div(7, 2), 3);
    assert_eq!(trunc_div(-7, 2), -3);
    assert_eq!(trunc_div(7, -2), -3);
    assert_eq!(trunc_div(-7, -2), 3);
    assert_eq!(trunc_div(i128::MIN, i128::MIN), 1);
    assert_eq!(trunc_div(5, i128::MIN), 0);
    assert_eq!(trunc_div(i128::MAX, 1), i128::MAX);
}
