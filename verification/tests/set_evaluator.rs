use constraint_evaluator::data_utility::model::{ModelArgument, ModelArray, CallWithDefines, ModelConstraint, ModelLiteral};
use constraint_evaluator::data_utility::types::VariableValue;
use constraint_evaluator::evaluator::set_ops::{
    difference_of, elements_of, intersection_of, is_subset, lex_less, set_equal, set_size,
    sorted_elements_of, sym_diff_of, union_of,
};
use constraint_evaluator::evaluator::sub_types::set_evaluator::SetEvaluator;
use constraint_evaluator::StringHashMap;
use std::collections::HashSet;

fn ident(s: &str) -> ModelArgument {
    ModelArgument::Literal(ModelLiteral::Identifier(s.to_string()))
}

fn call(id: &str, args: Vec<ModelArgument>) -> CallWithDefines {
    CallWithDefines {
        id: 0,
        call: ModelConstraint { id: id.to_string(), args, ann: vec![] },
        defines: None,
    }
}

fn evaluator(names: &[&str], arrays: Vec<(&str, Vec<ModelLiteral>)>) -> SetEvaluator {
    let mut regs: StringHashMap<u32> = StringHashMap::new();
    for (i, n) in names.iter().enumerate() {
        regs.insert(n.to_string(), i as u32);
    }
    let mut arrs: StringHashMap<ModelArray> = StringHashMap::new();
    for (n, contents) in arrays {
        arrs.insert(n.to_string(), ModelArray { contents });
    }
    SetEvaluator::new(arrs, regs, false)
}

fn set(vs: &[i64]) -> HashSet<i64> {
    vs.iter().copied().collect()
}

fn sv(vs: &[i64]) -> VariableValue {
    VariableValue::IntSet(set(vs))
}

#[test]
fn set_algebra_helpers() {
    let a = set(&[1, 2, 3]);
    let b = set(&[2, 3, 4]);
    assert_eq!(difference_of(&a, &b), set(&[1]));
    assert_eq!(intersection_of(&a, &b), set(&[2, 3]));
    assert_eq!(union_of(&a, &b), set(&[1, 2, 3, 4]));
    assert_eq!(sym_diff_of(&a, &b), set(&[1, 4]));
    assert!(is_subset(&set(&[2]), &a));
    assert!(!is_subset(&b, &a));
    assert!(set_equal(&a, &set(&[3, 1, 2])));
    assert!(!set_equal(&a, &b));
    assert_eq!(set_size(&a), 3);
    let mut listed = elements_of(&b);
    listed.sort();
    assert_eq!(listed, vec![2, 3, 4]);
}

#[test]
fn sorted_listing_and_lexicographic_order() {
    assert_eq!(sorted_elements_of(&set(&[9, -1, 4, 0])), vec![-1, 0, 4, 9]);
    assert_eq!(sorted_elements_of(&set(&[])), Vec::<i64>::new());
    assert!(lex_less(&vec![1, 2], &vec![1, 3]));
    assert!(lex_less(&vec![1, 2], &vec![1, 2, 0]));
    assert!(!lex_less(&vec![1, 2], &vec![1, 2]));
    assert!(!lex_less(&vec![2], &vec![1, 9]));
    assert_eq!(vec![1, 2] < vec![1, 2, 0], lex_less(&vec![1, 2], &vec![1, 2, 0]));
}

#[test]
fn set_eq_counts_the_symmetric_difference() {
    let ev = evaluator(&["x", "y"], vec![]);
    let p = ev.set_eq(&call("set_eq", vec![ident("x"), ident("y")])).unwrap();
    assert_eq!(p.violation(&[sv(&[1, 2, 3]), sv(&[2, 3, 4, 5])]), Some(3));
    assert_eq!(p.violation(&[sv(&[1, 2]), sv(&[2, 1])]), Some(0));
}

#[test]
fn set_card_measures_the_distance() {
    let ev = evaluator(&["s", "n"], vec![]);
    let p = ev.set_card(&call("set_card", vec![ident("s"), ident("n")])).unwrap();
    assert_eq!(p.violation(&[sv(&[1, 2, 3]), VariableValue::Int(1)]), Some(2));
    assert_eq!(p.violation(&[sv(&[1, 2, 3]), VariableValue::Int(3)]), Some(0));
    assert_eq!(p.violation(&[sv(&[1]), VariableValue::Int(-2)]), Some(3));
}

#[test]
fn set_in_against_a_constant_set() {
    let ev = evaluator(&["x"], vec![]);
    let lit = ModelArgument::Literal(ModelLiteral::IntSet(vec![(1, 3), (7, 7)]));
    let p = ev.set_in(&call("set_in", vec![ident("x"), lit])).unwrap();
    assert_eq!(p.violation(&[VariableValue::Int(2)]), Some(0));
    assert_eq!(p.violation(&[VariableValue::Int(7)]), Some(0));
    assert_eq!(p.violation(&[VariableValue::Int(5)]), Some(1));
}

#[test]
fn set_operations_count_the_symmetric_difference() {
    let ev = evaluator(&["x", "y", "z"], vec![]);
    let union = ev.set_union(&call("set_union", vec![ident("x"), ident("y"), ident("z")])).unwrap();
    assert_eq!(union.violation(&[sv(&[1]), sv(&[2, 3]), sv(&[1])]), Some(2));
    assert_eq!(union.violation(&[sv(&[1]), sv(&[2]), sv(&[1, 2])]), Some(0));
    assert_eq!(union.violation(&[sv(&[1]), sv(&[2]), sv(&[1, 2, 3])]), Some(1));
    let inter = ev.set_intersect(&call("set_intersect", vec![ident("x"), ident("y"), ident("z")])).unwrap();
    assert_eq!(inter.violation(&[sv(&[1, 2, 3]), sv(&[2, 3]), sv(&[2])]), Some(1));
    assert_eq!(inter.violation(&[sv(&[1, 2]), sv(&[2, 3]), sv(&[2, 7])]), Some(1));
    let diff = ev.set_diff(&call("set_diff", vec![ident("x"), ident("y"), ident("z")])).unwrap();
    assert_eq!(diff.violation(&[sv(&[1, 2, 3]), sv(&[2]), sv(&[1, 5])]), Some(2));
    let sym = ev.set_symdiff(&call("set_symdiff", vec![ident("x"), ident("y"), ident("z")])).unwrap();
    assert_eq!(sym.violation(&[sv(&[1, 2]), sv(&[2, 3]), sv(&[])]), Some(2));
    assert_eq!(sym.violation(&[sv(&[1, 2]), sv(&[2, 3]), sv(&[1, 3, 4])]), Some(1));
}

#[test]
fn subset_and_superset() {
    let ev = evaluator(&["x", "y"], vec![]);
    let sub = ev.set_subset(&call("set_subset", vec![ident("x"), ident("y")])).unwrap();
    assert_eq!(sub.violation(&[sv(&[1, 2, 5]), sv(&[1, 2])]), Some(1));
    assert_eq!(sub.violation(&[sv(&[1]), sv(&[1, 2])]), Some(0));
    let sup = ev.set_superset(&call("set_superset", vec![ident("x"), ident("y")])).unwrap();
    assert_eq!(sup.violation(&[sv(&[1, 2]), sv(&[1])]), Some(0));
    assert_eq!(sup.violation(&[sv(&[1, 9]), sv(&[1, 2])]), Some(1));
    // x a proper subset of y: one element of y is missing from x.
    assert_eq!(sup.violation(&[sv(&[1]), sv(&[1, 2])]), Some(1));
}

#[test]
fn set_le_and_set_lt_compare_sorted_listings() {
    let ev = evaluator(&["x", "y"], vec![]);
    let le = ev.set_le(&call("set_le", vec![ident("x"), ident("y")])).unwrap();
    let lt = ev.set_lt(&call("set_lt", vec![ident("x"), ident("y")])).unwrap();
    assert_eq!(le.violation(&[sv(&[1, 5]), sv(&[2])]), Some(0));
    assert_eq!(le.violation(&[sv(&[3, 4]), sv(&[1, 9])]), Some(1));
    // y longer than x while x > y: only the positions within both listings count.
    assert_eq!(le.violation(&[sv(&[5]), sv(&[1, 2])]), Some(1));
    assert_eq!(le.violation(&[sv(&[2]), sv(&[1, 3])]), Some(1));
    assert_eq!(lt.violation(&[sv(&[2]), sv(&[1, 3])]), Some(1));
    assert_eq!(lt.violation(&[sv(&[1, 2]), sv(&[1, 2])]), Some(2));
    assert_eq!(lt.violation(&[sv(&[1]), sv(&[1, 2])]), Some(0));
}

#[test]
fn reified_set_constraints() {
    let ev = evaluator(&["x", "y", "r"], vec![]);
    let eq = ev.set_eq_reif(&call("set_eq_reif", vec![ident("x"), ident("y"), ident("r")])).unwrap();
    assert_eq!(eq.violation(&[sv(&[1]), sv(&[1]), VariableValue::Bool(false)]), Some(1));
    let ne = ev.set_ne_reif(&call("set_ne_reif", vec![ident("x"), ident("y"), ident("r")])).unwrap();
    assert_eq!(ne.violation(&[sv(&[1]), sv(&[2]), VariableValue::Bool(true)]), Some(0));
    let sub = ev.set_subset_reif(&call("set_subset_reif", vec![ident("x"), ident("y"), ident("r")])).unwrap();
    assert_eq!(sub.violation(&[sv(&[1]), sv(&[1, 2]), VariableValue::Bool(true)]), Some(0));
    let sup = ev
        .set_superset_reif(&call("set_superset_reif", vec![ident("x"), ident("y"), ident("r")]))
        .unwrap();
    assert_eq!(sup.violation(&[sv(&[1]), sv(&[1, 2]), VariableValue::Bool(true)]), Some(1));
    let le = ev.set_le_reif(&call("set_le_reif", vec![ident("x"), ident("y"), ident("r")])).unwrap();
    assert_eq!(le.violation(&[sv(&[1, 2]), sv(&[3]), VariableValue::Bool(true)]), Some(0));
    let lt = ev.set_lt_reif(&call("set_lt_reif", vec![ident("x"), ident("y"), ident("r")])).unwrap();
    assert_eq!(lt.violation(&[sv(&[3]), sv(&[1, 2]), VariableValue::Bool(true)]), Some(1));
    let ne2 = ev.set_ne(&call("set_ne", vec![ident("x"), ident("y")])).unwrap();
    assert_eq!(ne2.violation(&[sv(&[4]), sv(&[4]), VariableValue::Bool(true)]), Some(1));
}

#[test]
fn set_in_reif_reads_integer_set_and_flag() {
    let ev = evaluator(&["v", "s", "r"], vec![]);
    let p = ev.set_in_reif(&call("set_in_reif", vec![ident("v"), ident("s"), ident("r")])).unwrap();
    assert_eq!(p.violation(&[VariableValue::Int(3), sv(&[3]), VariableValue::Bool(true)]), Some(0));
    assert_eq!(p.violation(&[VariableValue::Int(4), sv(&[3]), VariableValue::Bool(true)]), Some(1));
}

#[test]
fn array_set_element_counts_the_symmetric_difference() {
    let ev = evaluator(
        &["i", "v", "p", "q"],
        vec![
            ("consts", vec![ModelLiteral::IntSet(vec![(1, 2)]), ModelLiteral::IntSet(vec![(5, 7)])]),
            ("vars", vec![ModelLiteral::Identifier("p".to_string()), ModelLiteral::Identifier("q".to_string())]),
        ],
    );
    let c = ev
        .array_set_element(&call("array_set_element", vec![ident("i"), ident("consts"), ident("v")]))
        .unwrap();
    let sol = vec![VariableValue::Int(1), sv(&[5]), sv(&[]), sv(&[8])];
    assert_eq!(c.violation(&sol), Some(2));
    let exact = vec![VariableValue::Int(1), sv(&[5, 6, 7]), sv(&[]), sv(&[8])];
    assert_eq!(c.violation(&exact), Some(0));
    let more = vec![VariableValue::Int(1), sv(&[5, 6, 7, 9]), sv(&[]), sv(&[8])];
    assert_eq!(c.violation(&more), Some(1));
    let v = ev
        .array_var_set_element(&call("array_var_set_element", vec![ident("i"), ident("vars"), ident("v")]))
        .unwrap();
    assert_eq!(v.violation(&sol), Some(2));
    let bad = vec![VariableValue::Int(1), sv(&[5]), VariableValue::Int(0), sv(&[8])];
    assert_eq!(v.violation(&bad), None);
}

#[test]
fn an_array_of_non_sets_does_not_compile() {
    let ev = evaluator(&["i", "v"], vec![("consts", vec![ModelLiteral::Int(1)])]);
    assert!(ev
        .array_set_element(&call("array_set_element", vec![ident("i"), ident("consts"), ident("v")]))
        .is_none());
}

#[test]
fn set_subset_zero_exactly_when_satisfied() {
    let ev = evaluator(&["x", "y"], vec![]);
    let p = ev.set_subset(&call("set_subset", vec![ident("x"), ident("y")])).unwrap();
    let samples = [set(&[]), set(&[1]), set(&[1, 2]), set(&[2, 3])];
    for a in &samples {
        for b in &samples {
            let sol = vec![VariableValue::IntSet(a.clone()), VariableValue::IntSet(b.clone())];
            assert_eq!(p.violation(&sol) == Some(0), a.is_subset(b));
        }
    }
}

#[test]
fn a_failed_set_order_is_never_measured_zero() {
    let ev = evaluator(&["x", "y"], vec![]);
    let le = ev.set_le(&call("set_le", vec![ident("x"), ident("y")])).unwrap();
    // The listing of y is a proper prefix of that of x: x <= y fails, though no
    // position of y lies below x.
    assert_eq!(le.violation(&[sv(&[1, 2]), sv(&[1])]), Some(1));
    let lt = ev.set_lt(&call("set_lt", vec![ident("x"), ident("y")])).unwrap();
    // y empty: x < y fails, and there is no position of y to count.
    assert_eq!(lt.violation(&[sv(&[1]), sv(&[])]), Some(1));
    assert_eq!(lt.violation(&[sv(&[]), sv(&[])]), Some(1));
}
