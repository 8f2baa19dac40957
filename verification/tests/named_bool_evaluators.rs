use constraint_evaluator::data_utility::model::{ModelArgument, ModelArray, CallWithDefines, ModelConstraint, ModelLiteral};
use constraint_evaluator::data_utility::types::VariableValue;
use constraint_evaluator::evaluator::sub_types::bool_invariant_evaluator::BoolInvariantEvaluator;
use constraint_evaluator::functional_evaluator::sub_types::bool_functional_evaluator::BoolFunctionalEvaluator;
use constraint_evaluator::StringHashMap;

fn ident(s: &str) -> ModelArgument {
    ModelArgument::Literal(ModelLiteral::Identifier(s.to_string()))
}

fn idents(names: &[&str]) -> ModelArgument {
    ModelArgument::Array(names.iter().map(|n| ModelLiteral::Identifier(n.to_string())).collect())
}

fn call(id: &str, args: Vec<ModelArgument>) -> CallWithDefines {
    CallWithDefines { id: 7, call: ModelConstraint { id: id.to_string(), args, ann: vec![] }, defines: None }
}

fn solution(values: Vec<(&str, VariableValue)>) -> StringHashMap<VariableValue> {
    let mut sol: StringHashMap<VariableValue> = StringHashMap::new();
    for (n, v) in values {
        sol.insert(n.to_string(), v);
    }
    sol
}

fn arrays(entries: Vec<(&str, Vec<ModelLiteral>)>) -> StringHashMap<ModelArray> {
    let mut arrs: StringHashMap<ModelArray> = StringHashMap::new();
    for (n, contents) in entries {
        arrs.insert(n.to_string(), ModelArray { contents });
    }
    arrs
}

#[test]
fn functional_bool_and_by_name() {
    let ev = BoolFunctionalEvaluator::new(arrays(vec![]), false);
    let empty = solution(vec![]);
    let p = ev.bool_and(&call("bool_and", vec![ident("a"), ident("b"), ident("c")]), &empty).unwrap();
    let sol = solution(vec![
        ("a", VariableValue::Bool(true)),
        ("b", VariableValue::Bool(true)),
        ("c", VariableValue::Bool(false)),
    ]);
    assert_eq!(p.violation(&sol), Some(1));
    let sol = solution(vec![
        ("a", VariableValue::Bool(true)),
        ("b", VariableValue::Bool(false)),
        ("c", VariableValue::Bool(false)),
    ]);
    assert_eq!(p.violation(&sol), Some(0));
    let missing = solution(vec![("a", VariableValue::Bool(true))]);
    assert_eq!(p.violation(&missing), None);
}

#[test]
fn functional_bool_lin_eq_weights_the_booleans() {
    let ev = BoolFunctionalEvaluator::new(arrays(vec![]), false);
    let c = call(
        "bool_lin_eq",
        vec![ModelArgument::Array(vec![ModelLiteral::Int(2), ModelLiteral::Int(5)]), idents(&["x", "y"]), ident("t")],
    );
    let p = ev.bool_lin_eq(&c).unwrap();
    let sol = solution(vec![
        ("x", VariableValue::Bool(true)),
        ("y", VariableValue::Bool(true)),
        ("t", VariableValue::Int(7)),
    ]);
    assert_eq!(p.violation(&sol), Some(0));
    let sol = solution(vec![
        ("x", VariableValue::Bool(false)),
        ("y", VariableValue::Bool(true)),
        ("t", VariableValue::Int(7)),
    ]);
    assert_eq!(p.violation(&sol), Some(1));
    let le = ev
        .bool_lin_le(&call(
            "bool_lin_le",
            vec![ModelArgument::Array(vec![ModelLiteral::Int(2), ModelLiteral::Int(5)]), idents(&["x", "y"]), ModelArgument::Literal(ModelLiteral::Int(5))],
        ))
        .unwrap();
    assert_eq!(le.violation(&sol), Some(0));
}

#[test]
fn functional_array_bool_element_over_a_constant_array() {
    let ev = BoolFunctionalEvaluator::new(
        arrays(vec![("tbl", vec![ModelLiteral::Bool(true), ModelLiteral::Bool(false)])]),
        false,
    );
    let empty = solution(vec![]);
    let p = ev
        .array_bool_element(&call("array_bool_element", vec![ident("i"), ident("tbl"), ident("v")]), &empty)
        .unwrap();
    let sol = solution(vec![("i", VariableValue::Int(1)), ("v", VariableValue::Bool(false))]);
    assert_eq!(p.violation(&sol), Some(0));
    let sol = solution(vec![("i", VariableValue::Int(0)), ("v", VariableValue::Bool(false))]);
    assert_eq!(p.violation(&sol), Some(1));
}

#[test]
fn invariant_evaluation_carries_the_constraint() {
    let ev = BoolInvariantEvaluator::new(arrays(vec![]), false);
    let sol = solution(vec![("a", VariableValue::Bool(true)), ("b", VariableValue::Bool(true))]);
    let e = ev.bool_not(&call("bool_not", vec![ident("a"), ident("b")]), &sol).unwrap();
    assert_eq!(e.constraint_id, 7);
    assert_eq!(e.violation, 1);
    let e = ev.bool_eq(&call("bool_eq", vec![ident("a"), ident("b")]), &sol).unwrap();
    assert_eq!(e.violation, 0);
}

#[test]
fn invariant_array_and_xor_and_clause() {
    let ev = BoolInvariantEvaluator::new(
        arrays(vec![("xs", vec![ModelLiteral::Identifier("p".to_string()), ModelLiteral::Identifier("q".to_string())])]),
        false,
    );
    let sol = solution(vec![
        ("p", VariableValue::Bool(true)),
        ("q", VariableValue::Bool(false)),
        ("r", VariableValue::Bool(false)),
    ]);
    let and = ev.array_bool_and(&call("array_bool_and", vec![ident("xs"), ident("r")]), &sol).unwrap();
    assert_eq!(and.violation, 0);
    let xor = ev.array_bool_xor(&call("array_bool_xor", vec![ident("xs")]), &sol).unwrap();
    assert_eq!(xor.violation, 0);
    let clause = ev.bool_clause(&call("bool_clause", vec![idents(&["q"]), idents(&["r"])]), &sol).unwrap();
    assert_eq!(clause.violation, 0);
    let clause = ev.bool_clause(&call("bool_clause", vec![idents(&["q"]), idents(&["p"])]), &sol).unwrap();
    assert_eq!(clause.violation, 1);
}

#[test]
fn invariant_bool2int_and_reified_forms() {
    let ev = BoolInvariantEvaluator::new(arrays(vec![]), false);
    let sol = solution(vec![
        ("a", VariableValue::Bool(true)),
        ("b", VariableValue::Bool(false)),
        ("c", VariableValue::Bool(true)),
        ("n", VariableValue::Int(1)),
    ]);
    assert_eq!(ev.bool2int(&call("bool2int", vec![ident("a"), ident("n")]), &sol).unwrap().violation, 0);
    assert_eq!(ev.bool_or(&call("bool_or", vec![ident("a"), ident("b"), ident("c")]), &sol).unwrap().violation, 0);
    assert_eq!(ev.bool_xor(&call("bool_xor", vec![ident("a"), ident("b"), ident("c")]), &sol).unwrap().violation, 0);
    assert_eq!(ev.bool_le_reif(&call("bool_le_reif", vec![ident("a"), ident("b"), ident("c")]), &sol).unwrap().violation, 1);
    assert_eq!(ev.bool_lt(&call("bool_lt", vec![ident("b"), ident("a")]), &sol).unwrap().violation, 0);
    assert_eq!(ev.bool_le(&call("bool_le", vec![ident("a"), ident("b")]), &sol).unwrap().violation, 1);
    assert_eq!(ev.bool_eq_reif(&call("bool_eq_reif", vec![ident("a"), ident("c"), ident("c")]), &sol).unwrap().violation, 0);
    assert_eq!(ev.bool_lt_reif(&call("bool_lt_reif", vec![ident("b"), ident("a"), ident("c")]), &sol).unwrap().violation, 0);
    assert_eq!(ev.bool_and(&call("bool_and", vec![ident("a"), ident("b"), ident("c")]), &sol).unwrap().violation, 1);
    let wrong = solution(vec![("a", VariableValue::Int(1)), ("n", VariableValue::Int(1))]);
    assert!(ev.bool2int(&call("bool2int", vec![ident("a"), ident("n")]), &wrong).is_none());
}

#[test]
fn invariant_linear_and_element() {
    let ev = BoolInvariantEvaluator::new(arrays(vec![("tbl", vec![ModelLiteral::Bool(false), ModelLiteral::Bool(true)])]), false);
    let sol = solution(vec![
        ("x", VariableValue::Bool(true)),
        ("y", VariableValue::Bool(false)),
        ("i", VariableValue::Int(1)),
        ("v", VariableValue::Bool(true)),
    ]);
    let c = call(
        "bool_lin_le",
        vec![ModelArgument::Array(vec![ModelLiteral::Int(3), ModelLiteral::Int(4)]), idents(&["x", "y"]), ModelArgument::Literal(ModelLiteral::Int(2))],
    );
    assert_eq!(ev.bool_lin_le(&c, &sol).unwrap().violation, 1);
    let c = call(
        "bool_lin_eq",
        vec![ModelArgument::Array(vec![ModelLiteral::Int(3), ModelLiteral::Int(4)]), idents(&["x", "y"]), ModelArgument::Literal(ModelLiteral::Int(3))],
    );
    assert_eq!(ev.bool_lin_eq(&c, &sol).unwrap().violation, 0);
    let e = ev.array_bool_element(&call("array_bool_element", vec![ident("i"), ident("tbl"), ident("v")]), &sol);
    assert_eq!(e.unwrap().violation, 0);
}

#[test]
fn functional_bool_le_reif_reads_the_reified_literal_at_argument_two() {
    let ev = BoolFunctionalEvaluator::new(arrays(vec![]), false);
    let empty = solution(vec![]);
    let p = ev.bool_le_reif(&call("bool_le_reif", vec![ident("a"), ident("b"), ident("r")]), &empty).unwrap();
    let sol = solution(vec![
        ("a", VariableValue::Bool(false)),
        ("b", VariableValue::Bool(true)),
        ("r", VariableValue::Bool(false)),
    ]);
    assert_eq!(p.violation(&sol), Some(1));
    let sol = solution(vec![
        ("a", VariableValue::Bool(true)),
        ("b", VariableValue::Bool(false)),
        ("r", VariableValue::Bool(false)),
    ]);
    assert_eq!(p.violation(&sol), Some(0));
    let sol = solution(vec![
        ("a", VariableValue::Bool(false)),
        ("b", VariableValue::Bool(false)),
        ("r", VariableValue::Bool(true)),
    ]);
    assert_eq!(p.violation(&sol), Some(0));
    assert!(ev
        .bool_le_reif(&call("bool_le_reif", vec![ident("a"), ident("b"), ModelArgument::Literal(ModelLiteral::Int(3))]), &empty)
        .is_none());
}
