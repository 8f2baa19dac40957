use constraint_evaluator::data_utility::model::{ModelArgument, ModelArray, CallWithDefines, ModelConstraint, ModelLiteral};
use constraint_evaluator::data_utility::types::VariableValue;
use constraint_evaluator::evaluator::sub_types::bool_evaluator::BoolEvaluator;
use constraint_evaluator::StringHashMap;

fn ident(s: &str) -> ModelArgument {
    ModelArgument::Literal(ModelLiteral::Identifier(s.to_string()))
}

fn idents(names: &[&str]) -> ModelArgument {
    ModelArgument::Array(names.iter().map(|n| ModelLiteral::Identifier(n.to_string())).collect())
}

fn call(id: &str, args: Vec<ModelArgument>) -> CallWithDefines {
    CallWithDefines {
        id: 0,
        call: ModelConstraint { id: id.to_string(), args, ann: vec![] },
        defines: None,
    }
}

fn evaluator(names: &[&str], arrays: Vec<(&str, Vec<ModelLiteral>)>) -> BoolEvaluator {
    let mut regs: StringHashMap<u32> = StringHashMap::new();
    for (i, n) in names.iter().enumerate() {
        regs.insert(n.to_string(), i as u32);
    }
    let mut arrs: StringHashMap<ModelArray> = StringHashMap::new();
    for (n, contents) in arrays {
        arrs.insert(n.to_string(), ModelArray { contents });
    }
    BoolEvaluator::new(arrs, regs, false)
}

fn bools(vs: &[bool]) -> Vec<VariableValue> {
    vs.iter().map(|v| VariableValue::Bool(*v)).collect()
}

#[test]
fn array_bool_and_compares_the_conjunction() {
    let ev = evaluator(&["x", "y", "r"], vec![]);
    let p = ev.array_bool_and(&call("array_bool_and", vec![idents(&["x", "y"]), ident("r")])).unwrap();
    assert_eq!(p.violation(&bools(&[true, true, true])), Some(0));
    assert_eq!(p.violation(&bools(&[true, false, true])), Some(1));
    assert_eq!(p.violation(&bools(&[true, false, false])), Some(0));
}

#[test]
fn array_bool_xor_wants_an_odd_count() {
    let ev = evaluator(&["x", "y", "z"], vec![]);
    let p = ev.array_bool_xor(&call("array_bool_xor", vec![idents(&["x", "y", "z"])])).unwrap();
    assert_eq!(p.violation(&bools(&[true, false, false])), Some(0));
    assert_eq!(p.violation(&bools(&[true, true, false])), Some(1));
    assert_eq!(p.violation(&bools(&[true, true, true])), Some(0));
}

#[test]
fn bool_clause_reads_the_second_array_negated() {
    let ev = evaluator(&["a", "b"], vec![]);
    let p = ev.bool_clause(&call("bool_clause", vec![idents(&["a"]), idents(&["b"])])).unwrap();
    assert_eq!(p.violation(&bools(&[false, true])), Some(1));
    assert_eq!(p.violation(&bools(&[false, false])), Some(0));
    assert_eq!(p.violation(&bools(&[true, true])), Some(0));
    assert_eq!(p.violation(&bools(&[true, false])), Some(0));
}

#[test]
fn bool_clause_with_empty_first_array() {
    let ev = evaluator(&["n"], vec![]);
    let p = ev.bool_clause(&call("bool_clause", vec![idents(&[]), idents(&["n"])])).unwrap();
    assert_eq!(p.violation(&bools(&[true])), Some(1));
    assert_eq!(p.violation(&bools(&[false])), Some(0));
}

#[test]
fn binary_and_reified_connectives() {
    let ev = evaluator(&["a", "b", "c"], vec![]);
    let and = ev.bool_and(&call("bool_and", vec![ident("a"), ident("b"), ident("c")])).unwrap();
    assert_eq!(and.violation(&bools(&[true, true, false])), Some(1));
    let or = ev.bool_or(&call("bool_or", vec![ident("a"), ident("b"), ident("c")])).unwrap();
    assert_eq!(or.violation(&bools(&[false, true, true])), Some(0));
    let xor = ev.bool_xor(&call("bool_xor", vec![ident("a"), ident("b"), ident("c")])).unwrap();
    assert_eq!(xor.violation(&bools(&[true, true, true])), Some(1));
    let eq = ev.bool_eq(&call("bool_eq", vec![ident("a"), ident("b")])).unwrap();
    assert_eq!(eq.violation(&bools(&[true, false, false])), Some(1));
    let not = ev.bool_not(&call("bool_not", vec![ident("a"), ident("b")])).unwrap();
    assert_eq!(not.violation(&bools(&[true, false, false])), Some(0));
    let le = ev.bool_le(&call("bool_le", vec![ident("a"), ident("b")])).unwrap();
    assert_eq!(le.violation(&bools(&[true, false, false])), Some(1));
    let lt = ev.bool_lt(&call("bool_lt", vec![ident("a"), ident("b")])).unwrap();
    assert_eq!(lt.violation(&bools(&[false, true, false])), Some(0));
    let lt_reif = ev.bool_lt_reif(&call("bool_lt_reif", vec![ident("a"), ident("b"), ident("c")])).unwrap();
    assert_eq!(lt_reif.violation(&bools(&[false, true, false])), Some(1));
    let eq_reif = ev.bool_eq_reif(&call("bool_eq_reif", vec![ident("a"), ident("b"), ident("c")])).unwrap();
    assert_eq!(eq_reif.violation(&bools(&[false, false, true])), Some(0));
    let le_reif = ev.bool_le_reif(&call("bool_le_reif", vec![ident("a"), ident("b"), ident("c")])).unwrap();
    assert_eq!(le_reif.violation(&bools(&[true, false, true])), Some(1));
}

#[test]
fn bool2int_links_the_integer() {
    let ev = evaluator(&["a", "b"], vec![]);
    let p = ev.bool2int(&call("bool2int", vec![ident("a"), ident("b")])).unwrap();
    let sol = vec![VariableValue::Bool(true), VariableValue::Int(1)];
    assert_eq!(p.violation(&sol), Some(0));
    let sol = vec![VariableValue::Bool(false), VariableValue::Int(1)];
    assert_eq!(p.violation(&sol), Some(1));
}

#[test]
fn bool_lin_eq_counts_the_positions_where_both_hold() {
    let ev = evaluator(&["a1", "a2", "b1", "b2"], vec![]);
    let args = vec![idents(&["a1", "a2"]), idents(&["b1", "b2"]), ModelArgument::Literal(ModelLiteral::Int(1))];
    let p = ev.bool_lin_eq(&call("bool_lin_eq", args)).unwrap();
    assert_eq!(p.violation(&bools(&[true, true, true, false])), Some(0));
    assert_eq!(p.violation(&bools(&[true, true, true, true])), Some(1));
    let args = vec![idents(&["a1", "a2"]), idents(&["b1", "b2"]), ModelArgument::Literal(ModelLiteral::Int(1))];
    let q = ev.bool_lin_le(&call("bool_lin_le", args)).unwrap();
    assert_eq!(q.violation(&bools(&[false, false, true, true])), Some(0));
    assert_eq!(q.violation(&bools(&[true, true, true, true])), Some(1));
}

#[test]
fn array_bool_element_over_constants_and_variables() {
    let ev = evaluator(
        &["i", "v", "p", "q"],
        vec![
            ("consts", vec![ModelLiteral::Bool(false), ModelLiteral::Bool(true)]),
            ("vars", vec![ModelLiteral::Identifier("p".to_string()), ModelLiteral::Identifier("q".to_string())]),
        ],
    );
    let c = ev
        .array_bool_element(&call("array_bool_element", vec![ident("i"), ident("consts"), ident("v")]))
        .unwrap();
    let sol = vec![VariableValue::Int(1), VariableValue::Bool(true), VariableValue::Bool(false), VariableValue::Bool(false)];
    assert_eq!(c.violation(&sol), Some(0));
    let v = ev
        .array_var_bool_element(&call("array_var_bool_element", vec![ident("i"), ident("vars"), ident("v")]))
        .unwrap();
    assert_eq!(v.violation(&sol), Some(1));
}

#[test]
fn a_constant_operand_is_read_from_the_literal() {
    let ev = evaluator(&["a"], vec![]);
    let p = ev
        .bool_eq(&call("bool_eq", vec![ident("a"), ModelArgument::Literal(ModelLiteral::Bool(true))]))
        .unwrap();
    assert_eq!(p.violation(&bools(&[false])), Some(1));
    assert_eq!(p.violation(&bools(&[true])), Some(0));
}

#[test]
fn an_unregistered_array_variable_does_not_compile() {
    let ev = evaluator(&["x", "r"], vec![]);
    assert!(ev.array_bool_and(&call("array_bool_and", vec![idents(&["x", "ghost"]), ident("r")])).is_none());
}

#[test]
fn bool_or_zero_exactly_when_satisfied() {
    let ev = evaluator(&["a", "b", "c"], vec![]);
    let p = ev.bool_or(&call("bool_or", vec![ident("a"), ident("b"), ident("c")])).unwrap();
    for a in [false, true] {
        for b in [false, true] {
            for c in [false, true] {
                assert_eq!(p.violation(&bools(&[a, b, c])) == Some(0), c == (a || b));
            }
        }
    }
}
