use constraint_evaluator::data_utility::model::{ModelArgument, ModelArray, CallWithDefines, ModelConstraint, ModelLiteral};
use constraint_evaluator::data_utility::types::VariableValue;
use constraint_evaluator::evaluator::mini_evaluator::{
    compile_constraint, constraint_kind, discrete_violation, domain_violation, CompiledConstraint,
    ConstraintKind,
};
use constraint_evaluator::evaluator::sub_types::bool_evaluator::{BoolEvaluator, BoolKind};
use constraint_evaluator::evaluator::sub_types::int_evaluator::{IntEvaluator, IntKind};
use constraint_evaluator::evaluator::sub_types::set_evaluator::{SetEvaluator, SetKind};
use constraint_evaluator::StringHashMap;

fn ident(s: &str) -> ModelArgument {
    ModelArgument::Literal(ModelLiteral::Identifier(s.to_string()))
}

fn call(id: &str, args: Vec<ModelArgument>, ann: Vec<String>) -> CallWithDefines {
    CallWithDefines { id: 0, call: ModelConstraint { id: id.to_string(), args, ann }, defines: None }
}

fn registers(names: &[&str]) -> StringHashMap<u32> {
    let mut regs: StringHashMap<u32> = StringHashMap::new();
    for (i, n) in names.iter().enumerate() {
        regs.insert(n.to_string(), i as u32);
    }
    regs
}

fn evaluators(names: &[&str]) -> (IntEvaluator, BoolEvaluator, SetEvaluator) {
    (
        IntEvaluator::new(StringHashMap::<ModelArray>::new(), registers(names), false),
        BoolEvaluator::new(StringHashMap::<ModelArray>::new(), registers(names), false),
        SetEvaluator::new(StringHashMap::<ModelArray>::new(), registers(names), false),
    )
}

#[test]
fn names_select_the_evaluator() {
    assert_eq!(constraint_kind(&"int_lin_le".to_string()), ConstraintKind::Integer(IntKind::IntLinLe));
    assert_eq!(constraint_kind(&"bool2int".to_string()), ConstraintKind::Boolean(BoolKind::Bool2Int));
    assert_eq!(constraint_kind(&"set_union".to_string()), ConstraintKind::IntegerSet(SetKind::SetUnion));
    assert_eq!(constraint_kind(&"float_sin".to_string()), ConstraintKind::Float);
    assert_eq!(constraint_kind(&"int2float".to_string()), ConstraintKind::Float);
    assert_eq!(constraint_kind(&"fzn_all_different_int".to_string()), ConstraintKind::Unsupported);
}

#[test]
fn annotated_constraints_add_nothing() {
    let (i, b, s) = evaluators(&["x", "y"]);
    let c = call("int_eq", vec![ident("x"), ident("y")], vec!["defines_var".to_string()]);
    let p = compile_constraint(&i, &b, &s, &c).unwrap();
    assert!(matches!(p, CompiledConstraint::Annotated));
    assert_eq!(p.violation(&[VariableValue::Int(1), VariableValue::Int(9)]), Some(0));
}

#[test]
fn unsupported_names_do_not_compile() {
    let (i, b, s) = evaluators(&["x"]);
    let c = call("all_different_int", vec![ident("x")], vec![]);
    assert!(compile_constraint(&i, &b, &s, &c).is_none());
}

#[test]
fn float_constraints_are_left_to_the_caller() {
    let (i, b, s) = evaluators(&["x"]);
    let c = call("float_abs", vec![ident("x"), ident("x")], vec![]);
    assert!(matches!(compile_constraint(&i, &b, &s, &c), Some(CompiledConstraint::Float)));
}

#[test]
fn the_discrete_total_adds_the_violations() {
    let (i, b, s) = evaluators(&["x", "y", "p"]);
    let constraints = vec![
        call("int_eq", vec![ident("x"), ident("y")], vec![]),
        call("int_le", vec![ident("x"), ident("y")], vec![]),
        call("bool_eq", vec![ident("p"), ModelArgument::Literal(ModelLiteral::Bool(true))], vec![]),
        call("float_abs", vec![ident("x"), ident("y")], vec![]),
        call("int_ne", vec![ident("x"), ident("y")], vec!["ignored".to_string()]),
    ];
    let compiled: Vec<CompiledConstraint> =
        constraints.iter().map(|c| compile_constraint(&i, &b, &s, c).unwrap()).collect();
    let sol = vec![VariableValue::Int(9), VariableValue::Int(4), VariableValue::Bool(false)];
    assert_eq!(discrete_violation(&compiled, &sol), Some(5 + 5 + 1));
    let bad = vec![VariableValue::Int(9), VariableValue::Bool(true), VariableValue::Bool(false)];
    assert_eq!(discrete_violation(&compiled, &bad), None);
}

#[test]
fn domain_violation_of_integers_and_booleans() {
    let lb = VariableValue::Int(0);
    let ub = VariableValue::Int(10);
    assert_eq!(domain_violation(&VariableValue::Int(-3), &lb, &ub), Some(3));
    assert_eq!(domain_violation(&VariableValue::Int(14), &lb, &ub), Some(4));
    assert_eq!(domain_violation(&VariableValue::Int(5), &lb, &ub), Some(0));
    let one = VariableValue::Int(1);
    assert_eq!(domain_violation(&VariableValue::Bool(true), &one, &one), Some(0));
    assert_eq!(domain_violation(&VariableValue::Bool(false), &one, &one), Some(1));
    let f = VariableValue::Float(1.0f64.to_bits());
    assert_eq!(domain_violation(&f, &lb, &ub), None);
}

#[test]
fn domain_violation_does_not_overflow() {
    let lb = VariableValue::Int(i64::MAX);
    let ub = VariableValue::Int(i64::MAX);
    assert_eq!(domain_violation(&VariableValue::Int(i64::MIN), &lb, &ub), Some(u64::MAX));
}
