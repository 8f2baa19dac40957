use constraint_evaluator::data_utility::model::{ModelArgument, ModelArray, CallWithDefines, ModelConstraint, ModelLiteral};
use constraint_evaluator::data_utility::types::VariableValue;
use constraint_evaluator::evaluator::sub_types::int_evaluator::IntEvaluator;
use constraint_evaluator::StringHashMap;

fn ident(s: &str) -> ModelArgument {
    ModelArgument::Literal(ModelLiteral::Identifier(s.to_string()))
}

fn int_lit(v: i64) -> ModelArgument {
    ModelArgument::Literal(ModelLiteral::Int(v))
}

fn boolean(b: bool) -> ModelArgument {
    ModelArgument::Literal(ModelLiteral::Bool(b))
}

fn call(id: &str, args: Vec<ModelArgument>) -> CallWithDefines {
    CallWithDefines {
        id: 0,
        call: ModelConstraint { id: id.to_string(), args, ann: vec![] },
        defines: None,
    }
}

/// An evaluator whose variables `names[i]` live in register `i`, with the given arrays.
fn evaluator(names: &[&str], arrays: Vec<(&str, Vec<ModelLiteral>)>) -> IntEvaluator {
    let mut regs: StringHashMap<u32> = StringHashMap::new();
    for (i, n) in names.iter().enumerate() {
        regs.insert(n.to_string(), i as u32);
    }
    let mut arrs: StringHashMap<ModelArray> = StringHashMap::new();
    for (n, contents) in arrays {
        arrs.insert(n.to_string(), ModelArray { contents });
    }
    IntEvaluator::new(arrs, regs, false)
}

fn ints(vs: &[i64]) -> Vec<VariableValue> {
    vs.iter().map(|v| VariableValue::Int(*v)).collect()
}

#[test]
fn int_eq_measures_the_distance() {
    let ev = evaluator(&["x", "y"], vec![]);
    let p = ev.int_eq(&call("int_eq", vec![ident("x"), ident("y")])).unwrap();
    assert_eq!(p.violation(&ints(&[3, 7])), Some(4));
    assert_eq!(p.violation(&ints(&[7, 7])), Some(0));
}

#[test]
fn int_eq_against_a_constant() {
    let ev = evaluator(&["x"], vec![]);
    let p = ev.int_eq(&call("int_eq", vec![ident("x"), int_lit(-2)])).unwrap();
    assert_eq!(p.violation(&ints(&[5])), Some(7));
}

#[test]
fn int_le_and_int_lt() {
    let ev = evaluator(&["a", "b"], vec![]);
    let le = ev.int_le(&call("int_le", vec![ident("a"), ident("b")])).unwrap();
    assert_eq!(le.violation(&ints(&[5, 2])), Some(3));
    assert_eq!(le.violation(&ints(&[2, 5])), Some(0));
    let lt = ev.int_lt(&call("int_lt", vec![ident("a"), ident("b")])).unwrap();
    assert_eq!(lt.violation(&ints(&[4, 4])), Some(1));
    assert_eq!(lt.violation(&ints(&[6, 4])), Some(3));
    assert_eq!(lt.violation(&ints(&[3, 4])), Some(0));
}

#[test]
fn int_ne_counts_one() {
    let ev = evaluator(&["a", "b"], vec![]);
    let p = ev.int_ne(&call("int_ne", vec![ident("a"), ident("b")])).unwrap();
    assert_eq!(p.violation(&ints(&[4, 4])), Some(1));
    assert_eq!(p.violation(&ints(&[4, 5])), Some(0));
}

#[test]
fn int_lin_eq_over_an_inline_array() {
    let ev = evaluator(&["x", "y"], vec![]);
    let c = call(
        "int_lin_eq",
        vec![
            ModelArgument::Array(vec![ModelLiteral::Int(2), ModelLiteral::Int(3)]),
            ModelArgument::Array(vec![ModelLiteral::Identifier("x".to_string()), ModelLiteral::Identifier("y".to_string())]),
            int_lit(10),
        ],
    );
    let p = ev.int_lin_eq(&c).unwrap();
    assert_eq!(p.violation(&ints(&[1, 1])), Some(5));
    assert_eq!(p.violation(&ints(&[2, 2])), Some(0));
}

#[test]
fn int_lin_le_over_named_arrays() {
    let ev = evaluator(
        &["x", "y"],
        vec![
            ("coeffs", vec![ModelLiteral::Int(1), ModelLiteral::Int(-1)]),
            ("vars", vec![ModelLiteral::Identifier("x".to_string()), ModelLiteral::Identifier("y".to_string())]),
        ],
    );
    let p = ev.int_lin_le(&call("int_lin_le", vec![ident("coeffs"), ident("vars"), int_lit(0)])).unwrap();
    assert_eq!(p.violation(&ints(&[9, 2])), Some(7));
    assert_eq!(p.violation(&ints(&[2, 9])), Some(0));
}

#[test]
fn int_lin_eq_with_an_unknown_variable_does_not_compile() {
    let ev = evaluator(&["x"], vec![]);
    let c = call(
        "int_lin_eq",
        vec![
            ModelArgument::Array(vec![ModelLiteral::Int(1), ModelLiteral::Int(1)]),
            ModelArgument::Array(vec![ModelLiteral::Identifier("x".to_string()), ModelLiteral::Identifier("nope".to_string())]),
            int_lit(0),
        ],
    );
    assert!(ev.int_lin_eq(&c).is_none());
}

#[test]
fn int_div_rounds_toward_zero() {
    let ev = evaluator(&["a", "b", "c"], vec![]);
    let p = ev.int_div(&call("int_div", vec![ident("a"), ident("b"), ident("c")])).unwrap();
    assert_eq!(p.violation(&ints(&[7, 2, 3])), Some(0));
    assert_eq!(p.violation(&ints(&[-7, 2, -3])), Some(0));
    assert_eq!(p.violation(&ints(&[7, 2, 5])), Some(2));
    assert_eq!(p.violation(&ints(&[7, 0, 5])), Some(1));
}

#[test]
fn int_mod_keeps_the_sign_of_the_dividend() {
    let ev = evaluator(&["a", "b", "c"], vec![]);
    let p = ev.int_mod(&call("int_mod", vec![ident("a"), ident("b"), ident("c")])).unwrap();
    assert_eq!(p.violation(&ints(&[-7, 3, -1])), Some(0));
    assert_eq!(p.violation(&ints(&[-7, 3, 2])), Some(3));
    assert_eq!(p.violation(&ints(&[7, 0, 2])), Some(1));
    assert_eq!(p.violation(&ints(&[i64::MIN, -1, 0])), None);
}

#[test]
fn int_abs_min_max_times_pow() {
    let ev = evaluator(&["a", "b", "c"], vec![]);
    let abs = ev.int_abs(&call("int_abs", vec![ident("a"), ident("b")])).unwrap();
    assert_eq!(abs.violation(&ints(&[-5, 5, 0])), Some(0));
    assert_eq!(abs.violation(&ints(&[-5, 3, 0])), Some(2));
    let max = ev.int_max(&call("int_max", vec![ident("a"), ident("b"), ident("c")])).unwrap();
    assert_eq!(max.violation(&ints(&[2, 9, 4])), Some(5));
    let min = ev.int_min(&call("int_min", vec![ident("a"), ident("b"), ident("c")])).unwrap();
    assert_eq!(min.violation(&ints(&[2, 9, 4])), Some(2));
    let times = ev.int_times(&call("int_times", vec![ident("a"), ident("b"), ident("c")])).unwrap();
    assert_eq!(times.violation(&ints(&[3, 4, 10])), Some(2));
    let pow = ev.int_pow(&call("int_pow", vec![ident("a"), ident("b"), ident("c")])).unwrap();
    assert_eq!(pow.violation(&ints(&[2, 10, 1024])), Some(0));
    assert_eq!(pow.violation(&ints(&[3, 3, 20])), Some(7));
    assert_eq!(pow.violation(&ints(&[2, -1, 0])), Some(1));
    assert_eq!(pow.violation(&ints(&[1, 5_000_000_000, 1])), Some(0));
    assert_eq!(pow.violation(&ints(&[-1, 5_000_000_001, -1])), Some(0));
    assert_eq!(pow.violation(&ints(&[2, 4_294_967_296, 1])), None);
}

#[test]
fn reified_constraints_count_one() {
    let ev = evaluator(&["a", "b", "r"], vec![]);
    let le = ev.int_le_reif(&call("int_le_reif", vec![ident("a"), ident("b"), ident("r")])).unwrap();
    let sol = vec![VariableValue::Int(1), VariableValue::Int(2), VariableValue::Bool(false)];
    assert_eq!(le.violation(&sol), Some(1));
    let sol = vec![VariableValue::Int(1), VariableValue::Int(2), VariableValue::Bool(true)];
    assert_eq!(le.violation(&sol), Some(0));
    let ne = ev.int_ne_reif(&call("int_ne_reif", vec![ident("a"), ident("b"), boolean(true)])).unwrap();
    assert_eq!(ne.violation(&ints(&[3, 3, 0])), Some(1));
}

#[test]
fn int_eq_reif_measures_a_disagreeing_r() {
    let ev = evaluator(&["a", "b", "r"], vec![]);
    let p = ev.int_eq_reif(&call("int_eq_reif", vec![ident("a"), ident("b"), ident("r")])).unwrap();
    let sol = vec![VariableValue::Int(2), VariableValue::Int(9), VariableValue::Bool(true)];
    assert_eq!(p.violation(&sol), Some(7));
    // r false while a = b: violated, measured one.
    let sol = vec![VariableValue::Int(4), VariableValue::Int(4), VariableValue::Bool(false)];
    assert_eq!(p.violation(&sol), Some(1));
    let sol = vec![VariableValue::Int(4), VariableValue::Int(5), VariableValue::Bool(false)];
    assert_eq!(p.violation(&sol), Some(0));
}

#[test]
fn array_int_element_reads_the_constant_array() {
    let ev = evaluator(
        &["i", "v"],
        vec![("arr", vec![ModelLiteral::Int(10), ModelLiteral::Int(20), ModelLiteral::Int(30)])],
    );
    let p = ev
        .array_int_element(&call("array_int_element", vec![ident("i"), ident("arr"), ident("v")]))
        .unwrap();
    assert_eq!(p.violation(&ints(&[1, 20])), Some(0));
    assert_eq!(p.violation(&ints(&[2, 20])), Some(10));
    assert_eq!(p.violation(&ints(&[5, 20])), None);
}

#[test]
fn array_var_int_element_reads_the_variables() {
    let ev = evaluator(
        &["i", "v", "p", "q"],
        vec![("vars", vec![ModelLiteral::Identifier("p".to_string()), ModelLiteral::Identifier("q".to_string())])],
    );
    let p = ev
        .array_var_int_element(&call("array_var_int_element", vec![ident("i"), ident("vars"), ident("v")]))
        .unwrap();
    assert_eq!(p.violation(&ints(&[1, 5, 40, 7])), Some(2));
    assert_eq!(p.violation(&ints(&[0, 40, 40, 7])), Some(0));
}

#[test]
fn a_wrongly_typed_register_fails_the_evaluation() {
    let ev = evaluator(&["x", "y"], vec![]);
    let p = ev.int_eq(&call("int_eq", vec![ident("x"), ident("y")])).unwrap();
    let sol = vec![VariableValue::Bool(true), VariableValue::Int(1)];
    assert_eq!(p.violation(&sol), None);
}

#[test]
fn a_missing_constant_does_not_compile() {
    let ev = evaluator(&["x"], vec![]);
    assert!(ev.int_eq(&call("int_eq", vec![ident("x"), boolean(true)])).is_none());
    assert!(ev.int_eq(&call("int_eq", vec![ident("x")])).is_none());
}

#[test]
fn int_le_zero_exactly_when_satisfied() {
    let ev = evaluator(&["a", "b"], vec![]);
    let le = ev.int_le(&call("int_le", vec![ident("a"), ident("b")])).unwrap();
    for a in -3..4i64 {
        for b in -3..4i64 {
            assert_eq!(le.violation(&ints(&[a, b])) == Some(0), a <= b);
        }
    }
}
