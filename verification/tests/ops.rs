//! Operation names.

use rayforce::Operation;

#[test]
fn operation_names() {
    assert_eq!(Operation::Add.as_str(), "+");
    assert_eq!(Operation::Sum.as_str(), "sum");
    assert_eq!(Operation::InnerJoin.as_str(), "inner-join");
    assert_eq!(Operation::Median.as_str(), "med");
}

#[test]
fn comparison_and_logic_names() {
    assert_eq!(Operation::Gt.as_str(), ">");
    assert_eq!(Operation::Le.as_str(), "<=");
    assert_eq!(Operation::And.as_str(), "and");
    assert_eq!(Operation::Filter.as_str(), "filter");
    assert_eq!(Operation::Distinct.as_str(), "distinct");
    assert_eq!(Operation::Meta.as_str(), "meta");
}
