use constraint_evaluator::data_utility::json::{defines_in, defines_of, get_member, Json};
use constraint_evaluator::data_utility::model::{DeclaredDomain, ModelArgument, ModelArray, ModelConstraint, ModelLiteral};
use constraint_evaluator::data_utility::types::VariableValue;
use constraint_evaluator::evaluator::mini_evaluator::{
    compile_all, declarations, discrete_domain_violation_total, variable_bounds, with_defines, CompiledConstraint, VarDecl,
    VarDomain, VarType,
};
use constraint_evaluator::evaluator::sub_types::bool_evaluator::BoolEvaluator;
use constraint_evaluator::evaluator::sub_types::int_evaluator::IntEvaluator;
use constraint_evaluator::evaluator::sub_types::set_evaluator::SetEvaluator;
use constraint_evaluator::heuristics::flatzinc_based_pso::{
    decision_order, decision_variables, read_model, strip_bom, undefined_names,
};
use constraint_evaluator::StringHashMap;

fn ident(s: &str) -> ModelArgument {
    ModelArgument::Literal(ModelLiteral::Identifier(s.to_string()))
}

fn constraint(id: &str, args: Vec<ModelArgument>) -> ModelConstraint {
    ModelConstraint { id: id.to_string(), args, ann: vec![] }
}

fn registers(names: &[&str]) -> StringHashMap<u32> {
    let mut regs: StringHashMap<u32> = StringHashMap::new();
    for (i, n) in names.iter().enumerate() {
        regs.insert(n.to_string(), i as u32);
    }
    regs
}

#[test]
fn defines_are_read_from_the_constraints_member() {
    let text = r#"{"version": "1.0", "constraints": [{"id": "int_eq", "defines": "x"}, {"id": "int_le"}, {"defines": 3}]}"#;
    assert_eq!(defines_in(text), Some(vec![Some("x".to_string()), None, None]));
    assert_eq!(defines_in(r#"{"variables": {}}"#), Some(vec![]));
    assert_eq!(defines_in(r#"{"constraints": 5}"#), Some(vec![]));
    assert_eq!(defines_in("not json"), None);
}

#[test]
fn defines_of_a_built_document() {
    let item = Json::Obj(vec![("defines".to_string(), Json::Str("y".to_string()))]);
    let other = Json::Obj(vec![("defines".to_string(), Json::Null)]);
    let model = Json::Obj(vec![
        ("solve".to_string(), Json::Obj(vec![])),
        ("constraints".to_string(), Json::Arr(vec![other, item, Json::Num("1".to_string())])),
    ]);
    assert_eq!(defines_of(&model), vec![None, Some("y".to_string()), None]);
    assert!(get_member(&model, "solve").is_some());
    assert!(get_member(&model, "absent").is_none());
    assert_eq!(defines_of(&Json::Arr(vec![])), Vec::<Option<String>>::new());
}

#[test]
fn constraints_are_numbered_with_their_defines() {
    let cs = vec![constraint("int_eq", vec![ident("a"), ident("b")]), constraint("int_le", vec![ident("a"), ident("b")])];
    let calls = with_defines(cs, &vec![Some("b".to_string())]);
    assert_eq!(calls.len(), 2);
    assert_eq!(calls[0].id, 0);
    assert_eq!(calls[0].defines, Some("b".to_string()));
    assert_eq!(calls[1].id, 1);
    assert_eq!(calls[1].call.id, "int_le");
    assert_eq!(calls[1].defines, None);
}

#[test]
fn compile_all_names_the_first_unsupported_constraint() {
    let names = ["a", "b"];
    let ints = IntEvaluator::new(StringHashMap::<ModelArray>::new(), registers(&names), false);
    let bools = BoolEvaluator::new(StringHashMap::<ModelArray>::new(), registers(&names), false);
    let sets = SetEvaluator::new(StringHashMap::<ModelArray>::new(), registers(&names), false);
    let ok = with_defines(
        vec![constraint("int_le", vec![ident("a"), ident("b")]), constraint("float_eq", vec![ident("a"), ident("b")])],
        &vec![],
    );
    let compiled = compile_all(&ints, &bools, &sets, &ok).unwrap();
    assert_eq!(compiled.len(), 2);
    assert!(matches!(compiled[0], CompiledConstraint::Integer(_)));
    assert!(matches!(compiled[1], CompiledConstraint::Float));
    let bad = with_defines(
        vec![
            constraint("int_le", vec![ident("a"), ident("b")]),
            constraint("int_lin_gt", vec![ident("a")]),
            constraint("no_such", vec![]),
        ],
        &vec![],
    );
    assert_eq!(compile_all(&ints, &bools, &sets, &bad).err(), Some(1));
}

#[test]
fn bounds_and_domain_totals() {
    let decls = vec![
        VarDecl { ty: VarType::Int, domain: VarDomain::Int(1, 3), defined: false },
        VarDecl { ty: VarType::Bool, domain: VarDomain::Unbounded, defined: false },
        VarDecl { ty: VarType::Int, domain: VarDomain::Unbounded, defined: true },
        VarDecl { ty: VarType::Float, domain: VarDomain::Float(0, 1), defined: false },
        VarDecl { ty: VarType::Int, domain: VarDomain::Other, defined: false },
    ];
    let b = variable_bounds(&decls);
    assert_eq!(b.len(), 5);
    assert!(matches!(b[0], Some((VariableValue::Int(1), VariableValue::Int(3)))));
    assert!(matches!(b[1], Some((VariableValue::Int(0), VariableValue::Int(1)))));
    assert!(b[2].is_none());
    assert!(matches!(b[3], Some((VariableValue::Float(0), VariableValue::Float(1)))));
    assert!(b[4].is_none());
    let values = vec![
        VariableValue::Int(7),
        VariableValue::Bool(true),
        VariableValue::Int(100),
        VariableValue::Float(5),
        VariableValue::Int(-4),
    ];
    assert_eq!(discrete_domain_violation_total(&b, &values), Some(4));
    let within = vec![VariableValue::Int(2), VariableValue::Bool(false)];
    assert_eq!(discrete_domain_violation_total(&b, &within), Some(0));
    let huge: Vec<Option<(VariableValue, VariableValue)>> =
        (0..3).map(|_| Some((VariableValue::Int(i64::MAX), VariableValue::Int(i64::MAX)))).collect();
    let low: Vec<VariableValue> = (0..3).map(|_| VariableValue::Int(i64::MIN)).collect();
    assert_eq!(discrete_domain_violation_total(&huge, &low), None);
}

#[test]
fn decision_order_sorts_by_trailing_index_and_keeps_ties() {
    let names: Vec<String> = ["x10", "y", "x2", "z2", "w"].iter().map(|s| s.to_string()).collect();
    assert_eq!(decision_order(&names), vec![2, 3, 0, 1, 4]);
    assert_eq!(decision_order(&vec![]), Vec::<usize>::new());
}

#[test]
fn undefined_variables_in_search_order() {
    let entries = vec![
        ("a7".to_string(), false),
        ("b1".to_string(), true),
        ("c3".to_string(), false),
        ("d".to_string(), false),
    ];
    assert_eq!(undefined_names(&entries), vec!["a7".to_string(), "c3".to_string(), "d".to_string()]);
    assert_eq!(decision_variables(&entries), vec!["c3".to_string(), "a7".to_string(), "d".to_string()]);
}

#[test]
fn byte_order_mark_is_skipped() {
    assert_eq!(strip_bom("\u{feff}{}"), "{}");
    assert_eq!(strip_bom("{}"), "{}");
    assert_eq!(strip_bom(""), "");
}

#[test]
fn read_model_lists_decision_variables() {
    let text = "\u{feff}{\"variables\": {\"x10\": {\"type\": \"int\", \"domain\": [[1, 3], [7, 9]]}, \"x2\": {\"type\": \"bool\"}, \"y\": {\"type\": \"float\", \"domain\": [[0.5, 2.0]], \"defined\": true}}, \"arrays\": {\"a\": {\"a\": [1, \"x2\", 2.5]}}, \"constraints\": [{\"id\": \"int_le\", \"args\": [\"x10\", 4], \"ann\": [\"domain\"]}, {\"id\": \"bool_clause\", \"args\": [[\"x2\"], []]}], \"solve\": {\"method\": \"minimize\", \"objective\": \"x10\"}}";
    let (model, names) = read_model(text).unwrap();
    assert_eq!(names, vec!["x2".to_string(), "x10".to_string()]);
    let vs: Vec<&str> = model.variables.iter().map(|v| v.name.as_str()).collect();
    assert_eq!(vs, vec!["x10", "x2", "y"]);
    assert_eq!(model.variables[0].ty, VarType::Int);
    assert!(matches!(&model.variables[0].domain, Some(DeclaredDomain::Int(rs)) if rs == &vec![(1, 3), (7, 9)]));
    assert!(model.variables[1].domain.is_none());
    assert!(model.variables[2].defined);
    assert!(matches!(&model.variables[2].domain,
        Some(DeclaredDomain::Float(rs)) if rs == &vec![(0.5f64.to_bits(), 2.0f64.to_bits())]));
    let decls = declarations(&model);
    assert_eq!(decls[0].domain, VarDomain::Int(1, 9));
    assert_eq!(decls[1].domain, VarDomain::Unbounded);
    assert_eq!(model.arrays.len(), 1);
    assert_eq!(model.arrays[0].0, "a");
    assert!(matches!(model.arrays[0].1.contents[1], ModelLiteral::Identifier(ref id) if id == "x2"));
    assert!(matches!(model.arrays[0].1.contents[2], ModelLiteral::Float(b) if b == 2.5f64.to_bits()));
    assert_eq!(model.constraints.len(), 2);
    assert_eq!(model.constraints[0].id, "int_le");
    assert_eq!(model.constraints[0].ann, vec!["::domain".to_string()]);
    assert!(matches!(model.constraints[0].args[1], ModelArgument::Literal(ModelLiteral::Int(4))));
    assert!(matches!(&model.constraints[1].args[1], ModelArgument::Array(v) if v.is_empty()));
    assert!(matches!(model.objective, Some(ModelLiteral::Identifier(ref id)) if id == "x10"));
    assert!(read_model("{").is_none());
}

#[test]
fn compiling_again_measures_alike() {
    let names = ["a", "b"];
    let ints = IntEvaluator::new(StringHashMap::<ModelArray>::new(), registers(&names), false);
    let bools = BoolEvaluator::new(StringHashMap::<ModelArray>::new(), registers(&names), false);
    let sets = SetEvaluator::new(StringHashMap::<ModelArray>::new(), registers(&names), false);
    let cs = with_defines(
        vec![constraint("int_le", vec![ident("a"), ident("b")]), constraint("int_ne", vec![ident("a"), ident("b")])],
        &vec![],
    );
    let first = compile_all(&ints, &bools, &sets, &cs).unwrap();
    let second = compile_all(&ints, &bools, &sets, &cs).unwrap();
    for sol in [vec![VariableValue::Int(3), VariableValue::Int(1)], vec![VariableValue::Int(1), VariableValue::Int(1)]] {
        for (p, q) in first.iter().zip(second.iter()) {
            assert_eq!(p.violation(&sol), q.violation(&sol));
        }
    }
}
