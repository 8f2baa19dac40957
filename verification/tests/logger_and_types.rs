use constraint_evaluator::data_utility::constraint_evaluation::ConstraintEvaluation;
use constraint_evaluator::data_utility::logger::write_verbose_output;
use constraint_evaluator::data_utility::types::{copy_set, VariableValue};
use std::collections::HashSet;

#[test]
fn verbose_first_term_positive() {
    let mut s = String::new();
    write_verbose_output(&mut s, "3", "x");
    assert_eq!(s, "3 * x");
}

#[test]
fn verbose_first_term_negative() {
    let mut s = String::new();
    write_verbose_output(&mut s, "-3", "x");
    assert_eq!(s, "-3 * x");
}

#[test]
fn verbose_later_terms_take_their_sign() {
    let mut s = String::new();
    write_verbose_output(&mut s, "3", "x");
    write_verbose_output(&mut s, "2", "y");
    write_verbose_output(&mut s, "-5", "z");
    assert_eq!(s, "3 * x + 2 * y - 5 * z");
}

#[test]
fn verbose_trims_every_leading_minus() {
    let mut s = String::new();
    write_verbose_output(&mut s, "--4", "1");
    assert_eq!(s, "-4 * 1");
    write_verbose_output(&mut s, "--4", "1");
    assert_eq!(s, "-4 * 1 - 4 * 1");
}

#[test]
fn variable_value_accessors() {
    assert_eq!(VariableValue::Int(-7).as_int(), -7);
    assert!(VariableValue::Bool(true).as_bool());
    assert_eq!(VariableValue::Float(2.5f64.to_bits()).as_float(), 2.5f64.to_bits());
    let set: HashSet<i64> = [1, 4, 9].into_iter().collect();
    let v = VariableValue::IntSet(set.clone());
    assert_eq!(v.as_set(), set);
}

#[test]
fn variable_value_from_integer() {
    let v: VariableValue = VariableValue::from(42i64);
    assert_eq!(v.as_int(), 42);
}

#[test]
fn clone_and_copy_keep_the_contents() {
    let set: HashSet<i64> = [3, -2].into_iter().collect();
    assert_eq!(copy_set(&set), set);
    let v = VariableValue::IntSet(set.clone());
    assert_eq!(v.clone().as_set(), set);
    assert_eq!(VariableValue::Int(5).clone().as_int(), 5);
}

#[test]
fn evaluations_are_equal_by_constraint() {
    let a = ConstraintEvaluation { constraint_id: 4, violation: 1 };
    let b = ConstraintEvaluation { constraint_id: 4, violation: 9 };
    let c = ConstraintEvaluation { constraint_id: 5, violation: 1 };
    assert!(a == b);
    assert!(a != c);
    let mut seen: HashSet<ConstraintEvaluation> = HashSet::new();
    seen.insert(a);
    seen.insert(b);
    seen.insert(c);
    assert_eq!(seen.len(), 2);
}
