//! The decisions of the evaluation driver: which evaluator a FlatZinc constraint goes
//! to, its compilation, the violation of the compiled constraints that need no
//! floating-point arithmetic, and the violation of integer and boolean domains.
pub use crate::data_utility::model::CallWithDefines;
use crate::data_utility::model::{ModelConstraint, ModelConstraintV, DeclaredDomain, Model, ModelVariable};
use crate::data_utility::types::{values_view, VariableValue, VariableValueV};
use crate::evaluator::sub_types::bool_evaluator::{
    bool_compiled, bool_setup_ok, bool_violation, BoolConstraint, BoolEvaluator, BoolKind,
};
use crate::evaluator::sub_types::int_evaluator::{
    int_compiled, int_setup_ok, int_violation, IntConstraint, IntEvaluator, IntKind,
};
use crate::evaluator::sub_types::set_evaluator::{
    set_compiled, set_setup_ok, set_violation, SetConstraint, SetEvaluator, SetKind,
};
use crate::evaluator::terms::same_outcome;
use vstd::prelude::*;

verus! {

/// Whether `id` spells `name`.
fn named(id: &String, name: &str) -> (r: bool)
    ensures
        r == (id@ == name@),
{
    let n = name.to_owned();
    *id == n
}

/// The integer constraint that a FlatZinc predicate name denotes.
pub open spec fn int_kind_named(n: Seq<char>) -> Option<IntKind> {
    if n == "array_int_element"@ {
        Some(IntKind::ArrayIntElement)
    } else if n == "array_var_int_element"@ {
        Some(IntKind::ArrayVarIntElement)
    } else if n == "int_abs"@ {
        Some(IntKind::IntAbs)
    } else if n == "int_div"@ {
        Some(IntKind::IntDiv)
    } else if n == "int_eq"@ {
        Some(IntKind::IntEq)
    } else if n == "int_eq_reif"@ {
        Some(IntKind::IntEqReif)
    } else if n == "int_le"@ {
        Some(IntKind::IntLe)
    } else if n == "int_le_reif"@ {
        Some(IntKind::IntLeReif)
    } else if n == "int_lin_eq"@ {
        Some(IntKind::IntLinEq)
    } else if n == "int_lin_eq_reif"@ {
        Some(IntKind::IntLinEqReif)
    } else if n == "int_lin_le"@ {
        Some(IntKind::IntLinLe)
    } else if n == "int_lin_le_reif"@ {
        Some(IntKind::IntLinLeReif)
    } else if n == "int_lin_ne"@ {
        Some(IntKind::IntLinNe)
    } else if n == "int_lin_ne_reif"@ {
        Some(IntKind::IntLinNeReif)
    } else if n == "int_lt"@ {
        Some(IntKind::IntLt)
    } else if n == "int_lt_reif"@ {
        Some(IntKind::IntLtReif)
    } else if n == "int_max"@ {
        Some(IntKind::IntMax)
    } else if n == "int_min"@ {
        Some(IntKind::IntMin)
    } else if n == "int_mod"@ {
        Some(IntKind::IntMod)
    } else if n == "int_ne"@ {
        Some(IntKind::IntNe)
    } else if n == "int_ne_reif"@ {
        Some(IntKind::IntNeReif)
    } else if n == "int_pow"@ {
        Some(IntKind::IntPow)
    } else if n == "int_times"@ {
        Some(IntKind::IntTimes)
    } else {
        None
    }
}

/// The boolean constraint that a FlatZinc predicate name denotes.
pub open spec fn bool_kind_named(n: Seq<char>) -> Option<BoolKind> {
    if n == "array_bool_and"@ {
        Some(BoolKind::ArrayBoolAnd)
    } else if n == "array_bool_element"@ {
        Some(BoolKind::ArrayBoolElement)
    } else if n == "array_var_bool_element"@ {
        Some(BoolKind::ArrayVarBoolElement)
    } else if n == "array_bool_xor"@ {
        Some(BoolKind::ArrayBoolXor)
    } else if n == "bool_and"@ {
        Some(BoolKind::BoolAnd)
    } else if n == "bool_clause"@ {
        Some(BoolKind::BoolClause)
    } else if n == "bool_eq"@ {
        Some(BoolKind::BoolEq)
    } else if n == "bool_eq_reif"@ {
        Some(BoolKind::BoolEqReif)
    } else if n == "bool_le"@ {
        Some(BoolKind::BoolLe)
    } else if n == "bool_le_reif"@ {
        Some(BoolKind::BoolLeReif)
    } else if n == "bool_lin_eq"@ {
        Some(BoolKind::BoolLinEq)
    } else if n == "bool_lin_le"@ {
        Some(BoolKind::BoolLinLe)
    } else if n == "bool2int"@ {
        Some(BoolKind::Bool2Int)
    } else if n == "bool_lt"@ {
        Some(BoolKind::BoolLt)
    } else if n == "bool_lt_reif"@ {
        Some(BoolKind::BoolLtReif)
    } else if n == "bool_not"@ {
        Some(BoolKind::BoolNot)
    } else if n == "bool_or"@ {
        Some(BoolKind::BoolOr)
    } else if n == "bool_xor"@ {
        Some(BoolKind::BoolXor)
    } else {
        None
    }
}

/// The set constraint that a FlatZinc predicate name denotes.
pub open spec fn set_kind_named(n: Seq<char>) -> Option<SetKind> {
    if n == "array_set_element"@ {
        Some(SetKind::ArraySetElement)
    } else if n == "array_var_set_element"@ {
        Some(SetKind::ArrayVarSetElement)
    } else if n == "set_card"@ {
        Some(SetKind::SetCard)
    } else if n == "set_diff"@ {
        Some(SetKind::SetDiff)
    } else if n == "set_eq"@ {
        Some(SetKind::SetEq)
    } else if n == "set_eq_reif"@ {
        Some(SetKind::SetEqReif)
    } else if n == "set_in"@ {
        Some(SetKind::SetIn)
    } else if n == "set_in_reif"@ {
        Some(SetKind::SetInReif)
    } else if n == "set_intersect"@ {
        Some(SetKind::SetIntersect)
    } else if n == "set_le"@ {
        Some(SetKind::SetLe)
    } else if n == "set_le_reif"@ {
        Some(SetKind::SetLeReif)
    } else if n == "set_lt"@ {
        Some(SetKind::SetLt)
    } else if n == "set_lt_reif"@ {
        Some(SetKind::SetLtReif)
    } else if n == "set_ne"@ {
        Some(SetKind::SetNe)
    } else if n == "set_ne_reif"@ {
        Some(SetKind::SetNeReif)
    } else if n == "set_subset"@ {
        Some(SetKind::SetSubset)
    } else if n == "set_subset_reif"@ {
        Some(SetKind::SetSubsetReif)
    } else if n == "set_superset"@ {
        Some(SetKind::SetSuperset)
    } else if n == "set_superset_reif"@ {
        Some(SetKind::SetSupersetReif)
    } else if n == "set_symdiff"@ {
        Some(SetKind::SetSymdiff)
    } else if n == "set_union"@ {
        Some(SetKind::SetUnion)
    } else {
        None
    }
}

/// A FlatZinc predicate name that denotes a floating-point constraint.
pub open spec fn is_float_name(n: Seq<char>) -> bool {
    ||| n == "array_float_element"@
    ||| n == "array_var_float_element"@
    ||| n == "float_abs"@
    ||| n == "float_acos"@
    ||| n == "float_acosh"@
    ||| n == "float_asin"@
    ||| n == "float_asinh"@
    ||| n == "float_atan"@
    ||| n == "float_atanh"@
    ||| n == "float_cos"@
    ||| n == "float_cosh"@
    ||| n == "float_div"@
    ||| n == "float_eq"@
    ||| n == "float_eq_reif"@
    ||| n == "float_exp"@
    ||| n == "float_le"@
    ||| n == "float_le_reif"@
    ||| n == "float_lin_eq"@
    ||| n == "float_lin_eq_reif"@
    ||| n == "float_lin_le"@
    ||| n == "float_lin_le_reif"@
    ||| n == "float_lin_lt"@
    ||| n == "float_lin_lt_reif"@
    ||| n == "float_lin_ne"@
    ||| n == "float_lin_ne_reif"@
    ||| n == "float_ln"@
    ||| n == "float_log10"@
    ||| n == "float_log2"@
    ||| n == "float_lt"@
    ||| n == "float_lt_reif"@
    ||| n == "float_max"@
    ||| n == "float_min"@
    ||| n == "float_ne"@
    ||| n == "float_ne_reif"@
    ||| n == "float_plus"@
    ||| n == "float_pow"@
    ||| n == "float_sin"@
    ||| n == "float_sinh"@
    ||| n == "float_sqrt"@
    ||| n == "float_tan"@
    ||| n == "float_tanh"@
    ||| n == "float_times"@
    ||| n == "int2float"@
}

/// The integer constraint that a predicate name denotes.
fn int_kind_of(id: &String) -> (r: Option<IntKind>)
    ensures
        r == int_kind_named(id@),
{
    if named(id, "array_int_element") {
        Some(IntKind::ArrayIntElement)
    } else if named(id, "array_var_int_element") {
        Some(IntKind::ArrayVarIntElement)
    } else if named(id, "int_abs") {
        Some(IntKind::IntAbs)
    } else if named(id, "int_div") {
        Some(IntKind::IntDiv)
    } else if named(id, "int_eq") {
        Some(IntKind::IntEq)
    } else if named(id, "int_eq_reif") {
        Some(IntKind::IntEqReif)
    } else if named(id, "int_le") {
        Some(IntKind::IntLe)
    } else if named(id, "int_le_reif") {
        Some(IntKind::IntLeReif)
    } else if named(id, "int_lin_eq") {
        Some(IntKind::IntLinEq)
    } else if named(id, "int_lin_eq_reif") {
        Some(IntKind::IntLinEqReif)
    } else if named(id, "int_lin_le") {
        Some(IntKind::IntLinLe)
    } else if named(id, "int_lin_le_reif") {
        Some(IntKind::IntLinLeReif)
    } else if named(id, "int_lin_ne") {
        Some(IntKind::IntLinNe)
    } else if named(id, "int_lin_ne_reif") {
        Some(IntKind::IntLinNeReif)
    } else if named(id, "int_lt") {
        Some(IntKind::IntLt)
    } else if named(id, "int_lt_reif") {
        Some(IntKind::IntLtReif)
    } else if named(id, "int_max") {
        Some(IntKind::IntMax)
    } else if named(id, "int_min") {
        Some(IntKind::IntMin)
    } else if named(id, "int_mod") {
        Some(IntKind::IntMod)
    } else if named(id, "int_ne") {
        Some(IntKind::IntNe)
    } else if named(id, "int_ne_reif") {
        Some(IntKind::IntNeReif)
    } else if named(id, "int_pow") {
        Some(IntKind::IntPow)
    } else if named(id, "int_times") {
        Some(IntKind::IntTimes)
    } else {
        None
    }
}

/// The boolean constraint that a predicate name denotes.
fn bool_kind_of(id: &String) -> (r: Option<BoolKind>)
    ensures
        r == bool_kind_named(id@),
{
    if named(id, "array_bool_and") {
        Some(BoolKind::ArrayBoolAnd)
    } else if named(id, "array_bool_element") {
        Some(BoolKind::ArrayBoolElement)
    } else if named(id, "array_var_bool_element") {
        Some(BoolKind::ArrayVarBoolElement)
    } else if named(id, "array_bool_xor") {
        Some(BoolKind::ArrayBoolXor)
    } else if named(id, "bool_and") {
        Some(BoolKind::BoolAnd)
    } else if named(id, "bool_clause") {
        Some(BoolKind::BoolClause)
    } else if named(id, "bool_eq") {
        Some(BoolKind::BoolEq)
    } else if named(id, "bool_eq_reif") {
        Some(BoolKind::BoolEqReif)
    } else if named(id, "bool_le") {
        Some(BoolKind::BoolLe)
    } else if named(id, "bool_le_reif") {
        Some(BoolKind::BoolLeReif)
    } else if named(id, "bool_lin_eq") {
        Some(BoolKind::BoolLinEq)
    } else if named(id, "bool_lin_le") {
        Some(BoolKind::BoolLinLe)
    } else if named(id, "bool2int") {
        Some(BoolKind::Bool2Int)
    } else if named(id, "bool_lt") {
        Some(BoolKind::BoolLt)
    } else if named(id, "bool_lt_reif") {
        Some(BoolKind::BoolLtReif)
    } else if named(id, "bool_not") {
        Some(BoolKind::BoolNot)
    } else if named(id, "bool_or") {
        Some(BoolKind::BoolOr)
    } else if named(id, "bool_xor") {
        Some(BoolKind::BoolXor)
    } else {
        None
    }
}

/// The set constraint that a predicate name denotes.
fn set_kind_of(id: &String) -> (r: Option<SetKind>)
    ensures
        r == set_kind_named(id@),
{
    if named(id, "array_set_element") {
        Some(SetKind::ArraySetElement)
    } else if named(id, "array_var_set_element") {
        Some(SetKind::ArrayVarSetElement)
    } else if named(id, "set_card") {
        Some(SetKind::SetCard)
    } else if named(id, "set_diff") {
        Some(SetKind::SetDiff)
    } else if named(id, "set_eq") {
        Some(SetKind::SetEq)
    } else if named(id, "set_eq_reif") {
        Some(SetKind::SetEqReif)
    } else if named(id, "set_in") {
        Some(SetKind::SetIn)
    } else if named(id, "set_in_reif") {
        Some(SetKind::SetInReif)
    } else if named(id, "set_intersect") {
        Some(SetKind::SetIntersect)
    } else if named(id, "set_le") {
        Some(SetKind::SetLe)
    } else if named(id, "set_le_reif") {
        Some(SetKind::SetLeReif)
    } else if named(id, "set_lt") {
        Some(SetKind::SetLt)
    } else if named(id, "set_lt_reif") {
        Some(SetKind::SetLtReif)
    } else if named(id, "set_ne") {
        Some(SetKind::SetNe)
    } else if named(id, "set_ne_reif") {
        Some(SetKind::SetNeReif)
    } else if named(id, "set_subset") {
        Some(SetKind::SetSubset)
    } else if named(id, "set_subset_reif") {
        Some(SetKind::SetSubsetReif)
    } else if named(id, "set_superset") {
        Some(SetKind::SetSuperset)
    } else if named(id, "set_superset_reif") {
        Some(SetKind::SetSupersetReif)
    } else if named(id, "set_symdiff") {
        Some(SetKind::SetSymdiff)
    } else if named(id, "set_union") {
        Some(SetKind::SetUnion)
    } else {
        None
    }
}

/// Whether a predicate name denotes a floating-point constraint.
fn is_float_of(id: &String) -> (r: bool)
    ensures
        r == is_float_name(id@),
{
    named(id, "array_float_element")
    || named(id, "array_var_float_element")
    || named(id, "float_abs")
    || named(id, "float_acos")
    || named(id, "float_acosh")
    || named(id, "float_asin")
    || named(id, "float_asinh")
    || named(id, "float_atan")
    || named(id, "float_atanh")
    || named(id, "float_cos")
    || named(id, "float_cosh")
    || named(id, "float_div")
    || named(id, "float_eq")
    || named(id, "float_eq_reif")
    || named(id, "float_exp")
    || named(id, "float_le")
    || named(id, "float_le_reif")
    || named(id, "float_lin_eq")
    || named(id, "float_lin_eq_reif")
    || named(id, "float_lin_le")
    || named(id, "float_lin_le_reif")
    || named(id, "float_lin_lt")
    || named(id, "float_lin_lt_reif")
    || named(id, "float_lin_ne")
    || named(id, "float_lin_ne_reif")
    || named(id, "float_ln")
    || named(id, "float_log10")
    || named(id, "float_log2")
    || named(id, "float_lt")
    || named(id, "float_lt_reif")
    || named(id, "float_max")
    || named(id, "float_min")
    || named(id, "float_ne")
    || named(id, "float_ne_reif")
    || named(id, "float_plus")
    || named(id, "float_pow")
    || named(id, "float_sin")
    || named(id, "float_sinh")
    || named(id, "float_sqrt")
    || named(id, "float_tan")
    || named(id, "float_tanh")
    || named(id, "float_times")
    || named(id, "int2float")
}

/// The evaluator that a FlatZinc predicate name is meant for.
#[derive(Debug, Clone, Copy, PartialEq, Eq, Structural)]
pub enum ConstraintKind {
    Integer(IntKind),
    Boolean(BoolKind),
    IntegerSet(SetKind),
    /// A floating-point constraint.
    Float,
    /// A name that no evaluator supports.
    Unsupported,
}

/// The evaluator that a predicate name is meant for.
pub open spec fn kind_of_name(n: Seq<char>) -> ConstraintKind {
    match int_kind_named(n) {
        Some(k) => ConstraintKind::Integer(k),
        None => if is_float_name(n) {
            ConstraintKind::Float
        } else {
            match bool_kind_named(n) {
                Some(k) => ConstraintKind::Boolean(k),
                None => match set_kind_named(n) {
                    Some(k) => ConstraintKind::IntegerSet(k),
                    None => ConstraintKind::Unsupported,
                },
            }
        },
    }
}

/// The evaluator that the predicate named `id` is meant for.
pub fn constraint_kind(id: &String) -> (r: ConstraintKind)
    ensures
        r == kind_of_name(id@),
{
    match int_kind_of(id) {
        Some(k) => ConstraintKind::Integer(k),
        None => if is_float_of(id) {
            ConstraintKind::Float
        } else {
            match bool_kind_of(id) {
                Some(k) => ConstraintKind::Boolean(k),
                None => match set_kind_of(id) {
                    Some(k) => ConstraintKind::IntegerSet(k),
                    None => ConstraintKind::Unsupported,
                },
            }
        },
    }
}

/// A constraint of the model, ready to be evaluated.
#[derive(Debug)]
pub enum CompiledConstraint {
    /// A constraint with annotations; it adds nothing to the violation.
    Annotated,
    Integer(IntConstraint),
    Boolean(BoolConstraint),
    IntegerSet(SetConstraint),
    /// A floating-point constraint, evaluated outside this library.
    Float,
}

/// The constraint compiles: it carries annotations, or its name denotes a supported
/// constraint whose evaluator can compile it.
pub open spec fn compiles(
    c: ModelConstraintV,
    ints: IntEvaluator,
    bools: BoolEvaluator,
    sets: SetEvaluator,
) -> bool {
    if c.ann.len() > 0 {
        true
    } else {
        match kind_of_name(c.id) {
            ConstraintKind::Integer(k) => int_setup_ok(k, c, ints.array_map(), ints.register_map()),
            ConstraintKind::Boolean(k) => bool_setup_ok(k, c, bools.array_map(), bools.register_map()),
            ConstraintKind::IntegerSet(k) => set_setup_ok(k, c, sets.array_map(), sets.register_map()),
            ConstraintKind::Float => true,
            ConstraintKind::Unsupported => false,
        }
    }
}

/// `p` is the compilation of `c`.
pub open spec fn compiled_as(
    p: CompiledConstraint,
    c: ModelConstraintV,
    ints: IntEvaluator,
    bools: BoolEvaluator,
    sets: SetEvaluator,
) -> bool {
    if c.ann.len() > 0 {
        p is Annotated
    } else {
        match kind_of_name(c.id) {
            ConstraintKind::Integer(k) => p matches CompiledConstraint::Integer(q) && int_compiled(
                k,
                q,
                c,
                ints.array_map(),
                ints.register_map(),
            ),
            ConstraintKind::Boolean(k) => p matches CompiledConstraint::Boolean(q) && bool_compiled(
                k,
                q,
                c,
                bools.array_map(),
                bools.register_map(),
            ),
            ConstraintKind::IntegerSet(k) => p matches CompiledConstraint::IntegerSet(q) && set_compiled(
                k,
                q,
                c,
                sets.array_map(),
                sets.register_map(),
            ),
            ConstraintKind::Float => p is Float,
            ConstraintKind::Unsupported => false,
        }
    }
}

/// Compiles a constraint of the model with the evaluator its name is meant for.
///
/// `None` when the name denotes no supported constraint or the evaluator cannot
/// compile it.
pub fn compile_constraint(
    ints: &IntEvaluator,
    bools: &BoolEvaluator,
    sets: &SetEvaluator,
    constraint: &CallWithDefines,
) -> (r: Option<CompiledConstraint>)
    ensures
        r is Some <==> compiles(constraint.call@, *ints, *bools, *sets),
        r matches Some(p) ==> compiled_as(p, constraint.call@, *ints, *bools, *sets),
        constraint.call@.ann.len() == 0 && kind_of_name(constraint.call@.id) == ConstraintKind::Unsupported
            ==> r is None,
{
    if constraint.call.ann.len() > 0 {
        return Some(CompiledConstraint::Annotated);
    }
    match constraint_kind(&constraint.call.id) {
        ConstraintKind::Integer(k) => {
            let p = ints.compile(k, &constraint.call)?;
            Some(CompiledConstraint::Integer(p))
        },
        ConstraintKind::Boolean(k) => {
            let p = bools.compile(k, &constraint.call)?;
            Some(CompiledConstraint::Boolean(p))
        },
        ConstraintKind::IntegerSet(k) => {
            let p = sets.compile(k, &constraint.call)?;
            Some(CompiledConstraint::IntegerSet(p))
        },
        ConstraintKind::Float => Some(CompiledConstraint::Float),
        ConstraintKind::Unsupported => None,
    }
}

/// Compiles the constraints of a model in order, each with the evaluator its name is
/// meant for. `Err(i)` names the first constraint that cannot be compiled (a name that
/// denotes no supported constraint, or arguments its evaluator cannot compile).
pub fn compile_all(
    ints: &IntEvaluator,
    bools: &BoolEvaluator,
    sets: &SetEvaluator,
    constraints: &Vec<CallWithDefines>,
) -> (r: Result<Vec<CompiledConstraint>, usize>)
    ensures
        match r {
            Ok(ps) => ps@.len() == constraints@.len() && forall|i: int|
                0 <= i < ps@.len() ==> compiles(constraints@[i].call@, *ints, *bools, *sets) && compiled_as(
                    #[trigger] ps@[i],
                    constraints@[i].call@,
                    *ints,
                    *bools,
                    *sets,
                ),
            Err(k) => k < constraints@.len() && !compiles(constraints@[k as int].call@, *ints, *bools, *sets)
                && forall|j: int| 0 <= j < k ==> compiles(#[trigger] constraints@[j].call@, *ints, *bools, *sets),
        },
{
    let mut out: Vec<CompiledConstraint> = Vec::new();
    for i in 0..constraints.len()
        invariant
            out@.len() == i,
            forall|j: int| 0 <= j < i ==> compiled_as(#[trigger] out@[j], constraints@[j].call@, *ints, *bools, *sets),
            forall|j: int| 0 <= j < i ==> compiles(#[trigger] constraints@[j].call@, *ints, *bools, *sets),
    {
        match compile_constraint(ints, bools, sets, &constraints[i]) {
            Some(p) => out.push(p),
            None => return Err(i),
        }
    }
    Ok(out)
}

/// A copy of an optional name.
fn copy_name(n: &Option<String>) -> (r: Option<String>)
    ensures
        r == *n,
{
    match n {
        Some(s) => Some(s.clone()),
        None => None,
    }
}

/// The constraints of a model numbered in order, each with the variable that the
/// entry of `defines` at its position names (none past the end of `defines`).
pub fn with_defines(constraints: Vec<ModelConstraint>, defines: &Vec<Option<String>>) -> (r: Vec<CallWithDefines>)
    ensures
        r@.len() == constraints@.len(),
        forall|i: int|
            0 <= i < r@.len() ==> (#[trigger] r@[i]).id == i && r@[i].call == constraints@[i]
                && r@[i].defines == (if i < defines@.len() { defines@[i] } else { None }),
{
    let ghost cs = constraints@;
    let mut rest = constraints;
    let mut out: Vec<CallWithDefines> = Vec::new();
    let n = rest.len();
    while rest.len() > 0
        invariant
            n == cs.len(),
            out@.len() + rest@.len() == n,
            rest@ == cs.subrange(out@.len() as int, n as int),
            forall|i: int|
                0 <= i < out@.len() ==> (#[trigger] out@[i]).id == i && out@[i].call == cs[i]
                    && out@[i].defines == (if i < defines@.len() { defines@[i] } else { None }),
        decreases rest@.len(),
    {
        let i = out.len();
        let call = rest.remove(0);
        let d = if i < defines.len() { copy_name(&defines[i]) } else { None };
        out.push(CallWithDefines { id: i, call, defines: d });
        proof {
            assert(rest@ =~= cs.subrange(out@.len() as int, n as int));
        }
    }
    out
}

/// The kind of a variable of the model.
#[derive(Debug, Clone, Copy, PartialEq, Eq, Structural)]
pub enum VarType {
    Int,
    Bool,
    Float,
    /// Set and other kinds, which carry no numeric bounds.
    Other,
}

/// The domain a variable is declared with.
#[derive(Debug, Clone, Copy, PartialEq, Eq, Structural)]
pub enum VarDomain {
    /// No domain is declared.
    Unbounded,
    /// The integer range `lower..=upper` of the declared domain.
    Int(i64, i64),
    /// The floating-point range of the declared domain, by bit patterns.
    Float(u64, u64),
    /// A domain of another kind (a set domain).
    Other,
}

/// What the domain checks read of a declared variable.
#[derive(Debug, Clone, Copy, PartialEq, Eq, Structural)]
pub struct VarDecl {
    pub ty: VarType,
    pub domain: VarDomain,
    /// Whether a constraint of the model defines the variable.
    pub defined: bool,
}

/// What the domain checks read of a declared variable: its declared domain by its
/// least and greatest elements (a domain without ranges counts as of another kind).
pub open spec fn decl_spec(v: ModelVariable) -> VarDecl {
    VarDecl {
        ty: v.ty,
        domain: match v.domain {
            None => VarDomain::Unbounded,
            Some(DeclaredDomain::Int(rs)) => if rs@.len() > 0 {
                VarDomain::Int(rs@[0].0, rs@.last().1)
            } else {
                VarDomain::Other
            },
            Some(DeclaredDomain::Float(rs)) => if rs@.len() > 0 {
                VarDomain::Float(rs@[0].0, rs@.last().1)
            } else {
                VarDomain::Other
            },
        },
        defined: v.defined,
    }
}

/// What the domain checks read of each variable of a model, in order (see
/// [`decl_spec`]).
pub fn declarations(model: &Model) -> (r: Vec<VarDecl>)
    ensures
        r@.len() == model.variables@.len(),
        forall|i: int| 0 <= i < r@.len() ==> #[trigger] r@[i] == decl_spec(model.variables@[i]),
{
    let mut out: Vec<VarDecl> = Vec::new();
    for i in 0..model.variables.len()
        invariant
            out@.len() == i,
            forall|j: int| 0 <= j < i ==> #[trigger] out@[j] == decl_spec(model.variables@[j]),
    {
        let v = &model.variables[i];
        let domain = match &v.domain {
            None => VarDomain::Unbounded,
            Some(DeclaredDomain::Int(rs)) => if rs.len() > 0 {
                VarDomain::Int(rs[0].0, rs[rs.len() - 1].1)
            } else {
                VarDomain::Other
            },
            Some(DeclaredDomain::Float(rs)) => if rs.len() > 0 {
                VarDomain::Float(rs[0].0, rs[rs.len() - 1].1)
            } else {
                VarDomain::Other
            },
        };
        out.push(VarDecl { ty: v.ty, domain, defined: v.defined });
    }
    out
}

/// The bounds that the domain check holds a variable to: an integer variable its
/// integer range, a boolean variable `0..=1`, a floating-point variable its
/// floating-point range; none for a variable without a domain, with a domain of the
/// wrong kind, or of another type.
pub open spec fn bounds_of(d: VarDecl) -> Option<(VariableValueV, VariableValueV)> {
    match d.ty {
        VarType::Int => match d.domain {
            VarDomain::Int(lo, hi) => Some((VariableValueV::Int(lo), VariableValueV::Int(hi))),
            _ => None,
        },
        VarType::Bool => Some((VariableValueV::Int(0), VariableValueV::Int(1))),
        VarType::Float => match d.domain {
            VarDomain::Float(lo, hi) => Some((VariableValueV::Float(lo), VariableValueV::Float(hi))),
            _ => None,
        },
        VarType::Other => None,
    }
}

/// The view of optional bounds.
pub open spec fn bounds_view(b: Option<(VariableValue, VariableValue)>) -> Option<(VariableValueV, VariableValueV)> {
    match b {
        Some((lo, hi)) => Some((lo@, hi@)),
        None => None,
    }
}

/// The views of a list of optional bounds.
pub open spec fn bounds_views(
    bounds: Seq<Option<(VariableValue, VariableValue)>>,
) -> Seq<Option<(VariableValueV, VariableValueV)>> {
    bounds.map_values(|b: Option<(VariableValue, VariableValue)>| bounds_view(b))
}

/// The bounds of each declared variable, in order (see [`bounds_of`]).
pub fn variable_bounds(decls: &Vec<VarDecl>) -> (r: Vec<Option<(VariableValue, VariableValue)>>)
    ensures
        r@.len() == decls@.len(),
        forall|i: int| 0 <= i < r@.len() ==> bounds_view(#[trigger] r@[i]) == bounds_of(decls@[i]),
{
    let mut out: Vec<Option<(VariableValue, VariableValue)>> = Vec::new();
    for i in 0..decls.len()
        invariant
            out@.len() == i,
            forall|j: int| 0 <= j < i ==> bounds_view(#[trigger] out@[j]) == bounds_of(decls@[j]),
    {
        let d = decls[i];
        let b = match d.ty {
            VarType::Int => match d.domain {
                VarDomain::Int(lo, hi) => Some((VariableValue::Int(lo), VariableValue::Int(hi))),
                _ => None,
            },
            VarType::Bool => Some((VariableValue::Int(0), VariableValue::Int(1))),
            VarType::Float => match d.domain {
                VarDomain::Float(lo, hi) => Some((VariableValue::Float(lo), VariableValue::Float(hi))),
                _ => None,
            },
            VarType::Other => None,
        };
        out.push(b);
    }
    out
}

/// The domain violation that the integer and boolean values of a solution add up to:
/// each value with bounds counts its [`discrete_domain_violation`]; a value without
/// bounds, a floating-point value and a value whose bounds are of another kind count
/// nothing. Values past the end of either list are not read.
pub open spec fn discrete_domain_total(
    bounds: Seq<Option<(VariableValueV, VariableValueV)>>,
    values: Seq<VariableValueV>,
    n: nat,
) -> int
    decreases n,
{
    if n == 0 {
        0
    } else {
        let i = n - 1;
        discrete_domain_total(bounds, values, (n - 1) as nat) + match bounds[i] {
            Some((lo, hi)) => match discrete_domain_violation(values[i], lo, hi) {
                Some(a) => a,
                None => 0,
            },
            None => 0,
        }
    }
}

/// The positions that both lists have.
pub open spec fn common_len(a: nat, b: nat) -> nat {
    if a <= b { a } else { b }
}

/// The sum of the integer and boolean domain violations of a solution (see
/// [`discrete_domain_total`]); `None` when the sum exceeds `u64`.
pub fn discrete_domain_violation_total(
    bounds: &Vec<Option<(VariableValue, VariableValue)>>,
    values: &Vec<VariableValue>,
) -> (r: Option<u64>)
    ensures
        match r {
            Some(t) => t == discrete_domain_total(
                bounds_views(bounds@),
                values_view(values@),
                common_len(bounds@.len(), values@.len()),
            ),
            None => discrete_domain_total(
                bounds_views(bounds@),
                values_view(values@),
                common_len(bounds@.len(), values@.len()),
            ) > u64::MAX,
        },
{
    let ghost bs = bounds_views(bounds@);
    let ghost vs = values_view(values@);
    let n = if bounds.len() <= values.len() { bounds.len() } else { values.len() };
    let mut total: u64 = 0;
    for i in 0..n
        invariant
            n == common_len(bounds@.len(), values@.len()),
            n <= bounds@.len(),
            n <= values@.len(),
            bs == bounds_views(bounds@),
            vs == values_view(values@),
            total == discrete_domain_total(bs, vs, i as nat),
    {
        let amount: u64 = match &bounds[i] {
            Some((lo, hi)) => match domain_violation(&values[i], lo, hi) {
                Some(a) => a,
                None => 0,
            },
            None => 0,
        };
        proof {
            assert(bs[i as int] == bounds_view(bounds@[i as int]));
            assert(vs[i as int] == values@[i as int]@);
            assert(discrete_domain_total(bs, vs, (i + 1) as nat) == total + amount);
        }
        match total.checked_add(amount) {
            Some(t) => {
                total = t;
            },
            None => {
                proof {
                    lemma_domain_total_grows(bs, vs, (i + 1) as nat, n as nat);
                    assert(discrete_domain_total(bs, vs, n as nat) > u64::MAX);
                }
                return None;
            },
        }
    }
    Some(total)
}

/// The ranges are in ascending order and apart: each range is non-empty and ends
/// before the next one starts.
pub open spec fn ascending_ranges(rs: Seq<(i64, i64)>) -> bool {
    &&& forall|i: int| 0 <= i < rs.len() ==> (#[trigger] rs[i]).0 <= rs[i].1
    &&& forall|i: int, j: int| 0 <= i < j < rs.len() ==> (#[trigger] rs[i]).1 < (#[trigger] rs[j]).0
}

/// `b` are integer bounds that enclose the integers of the ranges as tightly as
/// possible: both bounds belong to the ranges, and every integer of the ranges lies
/// between them.
pub open spec fn tightest_int_bounds(rs: Seq<(i64, i64)>, b: Option<(VariableValueV, VariableValueV)>) -> bool {
    let s = crate::args_extractor::sub_types::set_args_extractor::ranges_set(rs);
    match b {
        Some((VariableValueV::Int(lo), VariableValueV::Int(hi))) => {
            &&& s.contains(lo)
            &&& s.contains(hi)
            &&& forall|x: i64| #[trigger] s.contains(x) ==> lo <= x <= hi
        },
        _ => false,
    }
}

/// The domain check holds a variable to the tightest bounds its declaration allows:
/// an integer variable declared with ascending ranges gets, as bounds, the least and
/// the greatest integer of its domain; a boolean variable gets `0..=1`.
pub proof fn lemma_bounds_enclose_domain(v: ModelVariable)
    ensures
        v.ty == VarType::Int && v.domain is Some && v.domain->0 is Int && v.domain->0->Int_0@.len() > 0
            && ascending_ranges(v.domain->0->Int_0@) ==> tightest_int_bounds(
            v.domain->0->Int_0@,
            bounds_of(decl_spec(v)),
        ),
        v.ty == VarType::Bool ==> bounds_of(decl_spec(v)) == Some((VariableValueV::Int(0), VariableValueV::Int(1))),
{
    if v.ty == VarType::Int {
        if let Some(DeclaredDomain::Int(rs)) = v.domain {
            if rs@.len() > 0 && ascending_ranges(rs@) {
                let s = crate::args_extractor::sub_types::set_args_extractor::ranges_set(rs@);
                let last = rs@.len() - 1;
                assert(s.contains(rs@[0].0)) by {
                    assert(rs@[0].0 <= rs@[0].0 <= rs@[0].1);
                }
                assert(s.contains(rs@[last].1)) by {
                    assert(rs@[last].0 <= rs@[last].1 <= rs@[last].1);
                }
                assert forall|x: i64| #[trigger] s.contains(x) implies rs@[0].0 <= x <= rs@[last].1 by {
                    let k = choose|k: int| #![trigger rs@[k]] 0 <= k < rs@.len() && rs@[k].0 <= x <= rs@[k].1;
                    if k > 0 {
                        assert(rs@[0].1 < rs@[k].0);
                    }
                    if k < last {
                        assert(rs@[k].1 < rs@[last].0);
                    }
                }
            }
        }
    }
}

/// How far a value lies outside integer bounds, a boolean counting as `0` or `1`;
/// zero for a value or bounds of another kind, and where there are no bounds.
pub open spec fn excess(b: Option<(VariableValueV, VariableValueV)>, v: VariableValueV) -> int {
    match (b, v) {
        (Some((VariableValueV::Int(lo), VariableValueV::Int(hi))), VariableValueV::Int(x)) => if x < lo {
            lo - x
        } else if x > hi {
            x - hi
        } else {
            0
        },
        (Some((VariableValueV::Int(lo), VariableValueV::Int(hi))), VariableValueV::Bool(t)) => {
            let x: int = if t { 1 } else { 0 };
            if x < lo {
                lo - x
            } else if x > hi {
                x - hi
            } else {
                0
            }
        },
        _ => 0,
    }
}

/// The domain total over the first `n` positions accounts for every one of them: it
/// is at least how far any single integer or boolean value there lies outside its
/// bounds, and it is zero exactly when every such value lies within its bounds.
pub proof fn lemma_domain_total_accounts_for_each(
    bounds: Seq<Option<(VariableValueV, VariableValueV)>>,
    values: Seq<VariableValueV>,
    n: nat,
)
    requires
        n <= bounds.len(),
        n <= values.len(),
    ensures
        forall|i: int| 0 <= i < n ==> excess(#[trigger] bounds[i], values[i]) <= discrete_domain_total(bounds, values, n),
        discrete_domain_total(bounds, values, n) == 0 <==> forall|i: int|
            0 <= i < n ==> excess(#[trigger] bounds[i], values[i]) == 0,
    decreases n,
{
    if n > 0 {
        let m = (n - 1) as nat;
        lemma_domain_total_accounts_for_each(bounds, values, m);
        lemma_domain_total_grows(bounds, values, 0, m);
        let i = n - 1;
        match bounds[i] {
            Some((lo, hi)) => {
                lemma_discrete_domain_nonneg(values[i], lo, hi);
            },
            None => {},
        }
        assert(excess(bounds[i], values[i]) >= 0);
        assert forall|j: int| 0 <= j < n implies excess(#[trigger] bounds[j], values[j]) >= 0 by {
            match bounds[j] {
                Some((lo, hi)) => {
                    lemma_discrete_domain_nonneg(values[j], lo, hi);
                },
                None => {},
            }
        }
    }
}

/// The sum of [`excess`] over the first `n` positions.
pub open spec fn excess_sum(
    bounds: Seq<Option<(VariableValueV, VariableValueV)>>,
    values: Seq<VariableValueV>,
    n: nat,
) -> int
    decreases n,
{
    if n == 0 {
        0
    } else {
        excess(bounds[n - 1], values[n - 1]) + excess_sum(bounds, values, (n - 1) as nat)
    }
}

/// The domain total over the first `n` positions is the sum of how far each integer
/// or boolean value there lies outside its integer bounds.
pub proof fn lemma_domain_total_is_excess_sum(
    bounds: Seq<Option<(VariableValueV, VariableValueV)>>,
    values: Seq<VariableValueV>,
    n: nat,
)
    ensures
        discrete_domain_total(bounds, values, n) == excess_sum(bounds, values, n),
    decreases n,
{
    if n > 0 {
        lemma_domain_total_is_excess_sum(bounds, values, (n - 1) as nat);
    }
}

/// Domain totals never shrink as positions are added.
proof fn lemma_domain_total_grows(
    bounds: Seq<Option<(VariableValueV, VariableValueV)>>,
    values: Seq<VariableValueV>,
    m: nat,
    n: nat,
)
    requires
        m <= n,
    ensures
        discrete_domain_total(bounds, values, m) <= discrete_domain_total(bounds, values, n),
    decreases n - m,
{
    if m < n {
        lemma_domain_total_grows(bounds, values, m, (n - 1) as nat);
        let i = n - 1;
        match bounds[i] {
            Some((lo, hi)) => {
                lemma_discrete_domain_nonneg(values[i], lo, hi);
            },
            None => {},
        }
    }
}

/// A domain violation is never negative.
proof fn lemma_discrete_domain_nonneg(value: VariableValueV, lower: VariableValueV, upper: VariableValueV)
    ensures
        discrete_domain_violation(value, lower, upper) matches Some(a) ==> a >= 0,
{
}

/// The violation of a compiled constraint that needs no floating-point arithmetic.
pub open spec fn compiled_violation(p: CompiledConstraint, sol: Seq<VariableValueV>) -> Option<int> {
    match p {
        CompiledConstraint::Annotated => Some(0),
        CompiledConstraint::Integer(q) => int_violation(q, sol),
        CompiledConstraint::Boolean(q) => bool_violation(q, sol),
        CompiledConstraint::IntegerSet(q) => set_violation(q, sol),
        CompiledConstraint::Float => None,
    }
}

impl CompiledConstraint {
    /// The violation of the constraint in `solution`; `None` where the evaluation
    /// fails.
    pub fn violation(&self, solution: &[VariableValue]) -> (r: Option<u64>)
        requires
            !(*self is Float),
        ensures
            same_outcome(r, compiled_violation(*self, values_view(solution@))),
    {
        match self {
            CompiledConstraint::Annotated => Some(0),
            CompiledConstraint::Integer(q) => q.violation(solution),
            CompiledConstraint::Boolean(q) => q.violation(solution),
            CompiledConstraint::IntegerSet(q) => q.violation(solution),
            CompiledConstraint::Float => None,
        }
    }
}

/// How far `value` lies outside `lower..=upper`: `lower - value` below it,
/// `value - upper` above it, `0` inside.
pub open spec fn out_of_range(value: int, lower: int, upper: int) -> int {
    if value < lower {
        lower - value
    } else if value > upper {
        value - upper
    } else {
        0
    }
}

/// The domain violation of an integer or boolean value against integer bounds (a
/// boolean counts as `0` or `1`); `None` for the other combinations of value and
/// bounds.
pub open spec fn discrete_domain_violation(
    value: VariableValueV,
    lower: VariableValueV,
    upper: VariableValueV,
) -> Option<int> {
    match (value, lower, upper) {
        (VariableValueV::Int(v), VariableValueV::Int(lb), VariableValueV::Int(ub)) => Some(
            out_of_range(v as int, lb as int, ub as int),
        ),
        (VariableValueV::Bool(b), VariableValueV::Int(lb), VariableValueV::Int(ub)) => Some(
            out_of_range(if b { 1int } else { 0int }, lb as int, ub as int),
        ),
        _ => None,
    }
}

/// How far `value` lies outside `lower..=upper`.
fn range_violation(value: i64, lower: i64, upper: i64) -> (r: u64)
    ensures
        r == out_of_range(value as int, lower as int, upper as int),
{
    if value < lower {
        (lower as i128 - value as i128) as u64
    } else if value > upper {
        (value as i128 - upper as i128) as u64
    } else {
        0
    }
}

/// The domain violation of an integer or boolean value (see
/// [`discrete_domain_violation`]).
pub fn domain_violation(value: &VariableValue, lower: &VariableValue, upper: &VariableValue) -> (r: Option<u64>)
    ensures
        same_outcome(r, discrete_domain_violation(value@, lower@, upper@)),
{
    match (value, lower, upper) {
        (VariableValue::Int(v), VariableValue::Int(lb), VariableValue::Int(ub)) => Some(
            range_violation(*v, *lb, *ub),
        ),
        (VariableValue::Bool(b), VariableValue::Int(lb), VariableValue::Int(ub)) => {
            let v: i64 = if *b { 1 } else { 0 };
            Some(range_violation(v, *lb, *ub))
        },
        _ => None,
    }
}

/// The sum of the violations of the compiled constraints that need no floating-point
/// arithmetic, the floating-point ones left out; `None` when one evaluation fails.
pub open spec fn discrete_total(ps: Seq<CompiledConstraint>, sol: Seq<VariableValueV>) -> Option<int>
    decreases ps.len(),
{
    if ps.len() == 0 {
        Some(0)
    } else {
        let rest = discrete_total(ps.drop_last(), sol);
        if ps.last() is Float {
            rest
        } else {
            match (rest, compiled_violation(ps.last(), sol)) {
                (Some(a), Some(b)) => Some(a + b),
                _ => None,
            }
        }
    }
}

/// A failed evaluation stays failed as constraints are added.
proof fn lemma_discrete_total_none(ps: Seq<CompiledConstraint>, sol: Seq<VariableValueV>, n: int)
    requires
        0 <= n <= ps.len(),
        discrete_total(ps.take(n), sol) is None,
    ensures
        discrete_total(ps, sol) is None,
    decreases ps.len() - n,
{
    if n < ps.len() {
        assert(ps.take(n + 1).drop_last() =~= ps.take(n));
        lemma_discrete_total_none(ps, sol, n + 1);
    } else {
        assert(ps.take(n) =~= ps);
    }
}

/// The sum of the violations of the compiled constraints that need no floating-point
/// arithmetic (see [`discrete_total`]); `None` when an evaluation fails or the sum
/// exceeds `u64`.
#[verifier::spinoff_prover]
pub fn discrete_violation(constraints: &Vec<CompiledConstraint>, solution: &[VariableValue]) -> (r: Option<u64>)
    ensures
        match r {
            Some(t) => discrete_total(constraints@, values_view(solution@)) == Some(t as int),
            None => match discrete_total(constraints@, values_view(solution@)) {
                Some(t) => t > u64::MAX,
                None => true,
            },
        },
{
    let ghost sol = values_view(solution@);
    let mut total: u64 = 0;
    for i in 0..constraints.len()
        invariant
            sol == values_view(solution@),
            discrete_total(constraints@.take(i as int), sol) == Some(total as int),
    {
        proof {
            assert(constraints@.take(i + 1).drop_last() =~= constraints@.take(i as int));
            assert(constraints@.take(i + 1).last() == constraints@[i as int]);
        }
        match &constraints[i] {
            CompiledConstraint::Float => {},
            c => {
                match c.violation(solution) {
                    Some(v) => {
                        match total.checked_add(v) {
                            Some(t) => {
                                total = t;
                            },
                            None => {
                                proof {
                                    let n = (i + 1) as int;
                                    assert(discrete_total(constraints@.take(n), sol) == Some(total + v));
                                    lemma_total_grows(constraints@, sol, n);
                                }
                                return None;
                            },
                        }
                    },
                    None => {
                        proof {
                            lemma_discrete_total_none(constraints@, sol, i + 1);
                        }
                        return None;
                    },
                }
            },
        }
    }
    proof {
        assert(constraints@.take(constraints.len() as int) =~= constraints@);
    }
    Some(total)
}

/// The total of a prefix bounds the total of the whole list from below.
proof fn lemma_total_grows(ps: Seq<CompiledConstraint>, sol: Seq<VariableValueV>, n: int)
    requires
        0 <= n <= ps.len(),
        discrete_total(ps.take(n), sol) is Some,
    ensures
        discrete_total(ps, sol) matches Some(t) ==> t >= discrete_total(ps.take(n), sol)->0,
    decreases ps.len() - n,
{
    if n < ps.len() {
        assert(ps.take(n + 1).drop_last() =~= ps.take(n));
        if discrete_total(ps.take(n + 1), sol) is Some {
            if !(ps.take(n + 1).last() is Float) {
                lemma_violation_nonneg(ps.take(n + 1).last(), sol);
            }
            lemma_total_grows(ps, sol, n + 1);
        } else {
            lemma_discrete_total_none(ps, sol, n + 1);
        }
    } else {
        assert(ps.take(n) =~= ps);
    }
}

/// A violation is never negative.
proof fn lemma_violation_nonneg(p: CompiledConstraint, sol: Seq<VariableValueV>)
    ensures
        compiled_violation(p, sol) matches Some(v) ==> v >= 0,
{
    match p {
        CompiledConstraint::IntegerSet(q) => {
            crate::evaluator::sub_types::set_evaluator::lemma_set_violation_nonneg(q, sol);
        },
        _ => {},
    }
}

/// A value has domain violation zero exactly when it lies within its bounds (a
/// boolean counting as `0` or `1`).
pub proof fn lemma_domain_violation_zero_iff_within(
    value: VariableValueV,
    lower: VariableValueV,
    upper: VariableValueV,
)
    requires
        discrete_domain_violation(value, lower, upper) is Some,
    ensures
        discrete_domain_violation(value, lower, upper) == Some(0int) <==> {
            let v: int = match value {
                VariableValueV::Int(x) => x as int,
                VariableValueV::Bool(b) => if b { 1int } else { 0int },
                _ => 0int,
            };
            lower->Int_0 <= v <= upper->Int_0
        },
{
}

/// The total violation of the compiled constraints is zero exactly when each
/// constraint that needs no floating-point arithmetic has violation zero (wherever
/// the evaluation succeeds).
pub proof fn lemma_discrete_total_zero_iff_each_zero(ps: Seq<CompiledConstraint>, sol: Seq<VariableValueV>)
    requires
        discrete_total(ps, sol) is Some,
    ensures
        discrete_total(ps, sol) == Some(0int) <==> forall|i: int|
            0 <= i < ps.len() && !(#[trigger] ps[i] is Float) ==> compiled_violation(ps[i], sol) == Some(0int),
    decreases ps.len(),
{
    if ps.len() > 0 {
        let rest = ps.drop_last();
        lemma_total_defined_prefix(ps, sol);
        lemma_discrete_total_zero_iff_each_zero(rest, sol);
        lemma_total_nonneg(rest, sol);
        if !(ps.last() is Float) {
            lemma_violation_nonneg(ps.last(), sol);
        }
        assert forall|i: int| 0 <= i < rest.len() implies #[trigger] rest[i] == ps[i] by {}
        if discrete_total(ps, sol) == Some(0int) {
            assert forall|i: int|
                0 <= i < ps.len() && !(#[trigger] ps[i] is Float) implies compiled_violation(ps[i], sol) == Some(0int) by {
                if i < ps.len() - 1 {
                    assert(rest[i] == ps[i]);
                }
            }
        }
        if forall|i: int|
            0 <= i < ps.len() && !(#[trigger] ps[i] is Float) ==> compiled_violation(ps[i], sol) == Some(0int) {
            assert forall|i: int|
                0 <= i < rest.len() && !(#[trigger] rest[i] is Float) implies compiled_violation(rest[i], sol) == Some(0int) by {
                assert(rest[i] == ps[i]);
            }
            if !(ps.last() is Float) {
                assert(ps[ps.len() - 1] == ps.last());
            }
        }
    }
}

/// A total that is defined is defined on every prefix, here the one without the last
/// constraint.
proof fn lemma_total_defined_prefix(ps: Seq<CompiledConstraint>, sol: Seq<VariableValueV>)
    requires
        ps.len() > 0,
        discrete_total(ps, sol) is Some,
    ensures
        discrete_total(ps.drop_last(), sol) is Some,
{
}

/// Totals are never negative.
proof fn lemma_total_nonneg(ps: Seq<CompiledConstraint>, sol: Seq<VariableValueV>)
    ensures
        discrete_total(ps, sol) matches Some(t) ==> t >= 0,
    decreases ps.len(),
{
    if ps.len() > 0 {
        lemma_total_nonneg(ps.drop_last(), sol);
        if !(ps.last() is Float) {
            lemma_violation_nonneg(ps.last(), sol);
        }
    }
}

/// Compiling is deterministic in what it measures: any two compilations of a
/// constraint give every solution the same violation, so compiling the constraints of
/// a model again changes no evaluation.
pub proof fn lemma_compilations_agree(
    p: CompiledConstraint,
    q: CompiledConstraint,
    c: ModelConstraintV,
    ints: IntEvaluator,
    bools: BoolEvaluator,
    sets: SetEvaluator,
    sol: Seq<VariableValueV>,
)
    requires
        compiled_as(p, c, ints, bools, sets),
        compiled_as(q, c, ints, bools, sets),
    ensures
        compiled_violation(p, sol) == compiled_violation(q, sol),
{
}

/// Compiling the constraints of a model twice has the effect of compiling them once:
/// two lists that each compile the same constraints, position by position (as the
/// `Ok` result of [`compile_all`] does), give every solution the same total violation.
pub proof fn lemma_compiled_lists_agree(
    ps: Seq<CompiledConstraint>,
    qs: Seq<CompiledConstraint>,
    cs: Seq<ModelConstraintV>,
    ints: IntEvaluator,
    bools: BoolEvaluator,
    sets: SetEvaluator,
    sol: Seq<VariableValueV>,
)
    requires
        ps.len() == cs.len(),
        qs.len() == cs.len(),
        forall|i: int| 0 <= i < cs.len() ==> compiled_as(#[trigger] ps[i], cs[i], ints, bools, sets),
        forall|i: int| 0 <= i < cs.len() ==> compiled_as(#[trigger] qs[i], cs[i], ints, bools, sets),
    ensures
        discrete_total(ps, sol) == discrete_total(qs, sol),
    decreases cs.len(),
{
    if cs.len() > 0 {
        let n = cs.len() - 1;
        assert(compiled_as(ps[n], cs[n], ints, bools, sets));
        assert(compiled_as(qs[n], cs[n], ints, bools, sets));
        lemma_compilations_agree(ps[n], qs[n], cs[n], ints, bools, sets, sol);
        assert forall|i: int| 0 <= i < n implies compiled_as(#[trigger] ps.drop_last()[i], cs.drop_last()[i], ints, bools, sets) by {
            assert(compiled_as(ps[i], cs[i], ints, bools, sets));
        }
        assert forall|i: int| 0 <= i < n implies compiled_as(#[trigger] qs.drop_last()[i], cs.drop_last()[i], ints, bools, sets) by {
            assert(compiled_as(qs[i], cs[i], ints, bools, sets));
        }
        lemma_compiled_lists_agree(ps.drop_last(), qs.drop_last(), cs.drop_last(), ints, bools, sets, sol);
        assert(ps.last() is Float <==> qs.last() is Float);
    }
}

} // verus!
