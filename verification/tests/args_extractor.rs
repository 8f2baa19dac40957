use constraint_evaluator::args_extractor::args_extractor::ArgsExtractor;
use constraint_evaluator::args_extractor::sub_types::bool_args_extractor::BoolArgsExtractor;
use constraint_evaluator::args_extractor::sub_types::float_args_extractor::FloatArgsExtractor;
use constraint_evaluator::args_extractor::sub_types::int_args_extractor::IntArgsExtractor;
use constraint_evaluator::args_extractor::sub_types::set_args_extractor::SetArgsExtractor;
use constraint_evaluator::data_utility::lin_expression::int_lin_left_term;
use constraint_evaluator::data_utility::model::{ModelArgument, ModelArray, ModelConstraint, ModelLiteral};
use constraint_evaluator::data_utility::types::VariableValue;
use constraint_evaluator::StringHashMap;
use std::collections::HashSet;

fn ident(s: &str) -> ModelLiteral {
    ModelLiteral::Identifier(s.to_string())
}

fn constraint(args: Vec<ModelArgument>) -> ModelConstraint {
    ModelConstraint { id: "c".to_string(), args, ann: vec![] }
}

#[test]
fn identifiers_by_position() {
    let ex = ArgsExtractor::new();
    let args = vec![
        ModelArgument::Literal(ident("x")),
        ModelArgument::Literal(ModelLiteral::Int(3)),
        ModelArgument::Array(vec![ident("a"), ModelLiteral::Int(1), ident("b")]),
        ModelArgument::Literal(ModelLiteral::String("s".to_string())),
    ];
    let m = ex.extract_literal_identifiers_with_index(&args);
    assert_eq!(m.len(), 3);
    assert_eq!(m.get(&0).unwrap(), "x");
    assert_eq!(m.get(&2).unwrap(), "b");
    assert_eq!(m.get(&3).unwrap(), "s");
    assert!(m.get(&1).is_none());
    assert_eq!(ex.extract_literal_identifiers(&args), vec!["x", "a", "b", "s"]);
}

#[test]
fn linear_expression_parts() {
    let ex = ArgsExtractor::new();
    let mut arrays: StringHashMap<ModelArray> = StringHashMap::new();
    arrays.insert("vs".to_string(), ModelArray { contents: vec![ident("p"), ident("q")] });
    arrays.insert("cs".to_string(), ModelArray { contents: vec![ModelLiteral::Int(4), ModelLiteral::Int(-1)] });
    let c = constraint(vec![
        ModelArgument::Literal(ident("cs")),
        ModelArgument::Literal(ident("vs")),
        ModelArgument::Literal(ident("single")),
        ModelArgument::Array(vec![ModelLiteral::Int(7), ModelLiteral::Int(8)]),
    ]);
    assert_eq!(ex.extract_var_values_lin_expr(1, &c, &arrays), vec!["p", "q"]);
    assert_eq!(ex.extract_var_values_lin_expr(2, &c, &arrays), vec!["single"]);
    assert_eq!(ex.extract_int_coefficients_lin_expr(0, &c, &arrays), vec![4, -1]);
    assert_eq!(ex.extract_int_coefficients_lin_expr(3, &c, &arrays), vec![7, 8]);
}

#[test]
fn literal_values() {
    let ex = ArgsExtractor::new();
    assert_eq!(ex.extract_int_value(ModelLiteral::Int(-9)), -9);
    assert!(ex.extract_bool_value(ModelLiteral::Bool(true)));
    let c = constraint(vec![ModelArgument::Literal(ModelLiteral::Int(5))]);
    assert!(matches!(ex.extract_term(&c, 0), ModelLiteral::Int(5)));
}

#[test]
fn typed_extractors_read_literals() {
    let c = constraint(vec![
        ModelArgument::Literal(ModelLiteral::Int(12)),
        ModelArgument::Literal(ModelLiteral::Bool(false)),
        ModelArgument::Literal(ModelLiteral::Float(1.5f64.to_bits())),
        ModelArgument::Literal(ModelLiteral::IntSet(vec![(1, 3), (7, 7), (5, 4)])),
    ]);
    assert_eq!(IntArgsExtractor::new().extract_int_value(0, &c), 12);
    assert!(!BoolArgsExtractor::new().extract_bool_value(1, &c));
    assert_eq!(FloatArgsExtractor::new().extract_float_value(2, &c), 1.5f64.to_bits());
    let expected: HashSet<i64> = [1, 2, 3, 7].into_iter().collect();
    assert_eq!(SetArgsExtractor::new().extract_set_value(3, &c), expected);
}

#[test]
fn bool_array_names() {
    let mut arrays: StringHashMap<ModelArray> = StringHashMap::new();
    arrays.insert("bs".to_string(), ModelArray { contents: vec![ident("u"), ident("v")] });
    let args = vec![ModelArgument::Literal(ident("bs")), ModelArgument::Array(vec![ident("w")])];
    let ex = BoolArgsExtractor::new();
    assert_eq!(ex.extract_bool_array(0, &args, &arrays), vec!["u", "v"]);
    assert_eq!(ex.extract_bool_array(1, &args, &arrays), vec!["w"]);
}

#[test]
fn float_linear_coefficients_are_bit_patterns() {
    let mut arrays: StringHashMap<ModelArray> = StringHashMap::new();
    arrays.insert(
        "cs".to_string(),
        ModelArray { contents: vec![ModelLiteral::Float(2.0f64.to_bits()), ModelLiteral::Float((-0.5f64).to_bits())] },
    );
    let c = constraint(vec![ModelArgument::Literal(ident("cs"))]);
    let got = FloatArgsExtractor::new().extract_float_coefficients_lin_expr(0, &c, &arrays);
    assert_eq!(got, vec![2.0f64.to_bits(), (-0.5f64).to_bits()]);
}

#[test]
fn linear_left_term_by_name() {
    let mut sol: StringHashMap<VariableValue> = StringHashMap::new();
    sol.insert("x".to_string(), VariableValue::Int(3));
    sol.insert("y".to_string(), VariableValue::Int(-2));
    let v = int_lin_left_term(vec![2, 5, 100], vec!["x".to_string(), "y".to_string()], &sol);
    assert_eq!(v, 2 * 3 + 5 * -2);
}

#[test]
fn every_extractor_gives_the_same_name_map() {
    let args = vec![
        ModelArgument::Literal(ident("x")),
        ModelArgument::Literal(ModelLiteral::Bool(true)),
        ModelArgument::Array(vec![ident("a"), ident("b")]),
    ];
    let base = ArgsExtractor::new().extract_literal_identifiers_with_index(&args);
    assert_eq!(BoolArgsExtractor::new().extract_literal_identifiers_with_index(&args), base);
    assert_eq!(IntArgsExtractor::new().extract_literal_identifiers_with_index(&args), base);
    assert_eq!(FloatArgsExtractor::new().extract_literal_identifiers_with_index(&args), base);
    assert_eq!(SetArgsExtractor::new().extract_literal_identifiers_with_index(&args), base);
}

#[test]
fn new_and_default_extractors_read_alike() {
    let c = constraint(vec![
        ModelArgument::Literal(ModelLiteral::Int(-4)),
        ModelArgument::Literal(ModelLiteral::Bool(true)),
        ModelArgument::Literal(ident("v")),
    ]);
    let general = ArgsExtractor::default();
    let term = general.extract_term(&c, 0);
    assert_eq!(ArgsExtractor::new().extract_int_value(ArgsExtractor::new().extract_term(&c, 0)), general.extract_int_value(term));
    assert_eq!(BoolArgsExtractor::default().extract_int_value(0, &c), general.extract_int_value(general.extract_term(&c, 0)));
    assert_eq!(IntArgsExtractor::default().extract_bool_value(1, &c), general.extract_bool_value(general.extract_term(&c, 1)));
    assert_eq!(
        IntArgsExtractor::default().extract_literal_identifiers_with_index(&c.args),
        ArgsExtractor::new().extract_literal_identifiers_with_index(&c.args)
    );
    assert_eq!(
        SetArgsExtractor::default().extract_literal_identifiers_with_index(&c.args),
        FloatArgsExtractor::default().extract_literal_identifiers_with_index(&c.args)
    );
}
