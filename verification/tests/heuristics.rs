use constraint_evaluator::heuristics::flatzinc_based_pso::var_index;

#[test]
fn var_index_reads_the_last_number() {
    assert_eq!(var_index("x12"), Some(12));
    assert_eq!(var_index("x[3]"), Some(3));
    assert_eq!(var_index("a1b22"), Some(22));
    assert_eq!(var_index("X_INTRODUCED_42_"), Some(42));
    assert_eq!(var_index("007"), Some(7));
}

#[test]
fn var_index_without_digits_or_too_large() {
    assert_eq!(var_index("abc"), None);
    assert_eq!(var_index(""), None);
    assert_eq!(var_index("n99999999999999999999999"), None);
}
