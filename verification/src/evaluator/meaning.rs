//! What each FlatZinc constraint states of a solution, read from the constraint's
//! arguments, and the laws that a compiled constraint measures exactly that: its
//! violation is zero when, and only when, the statement holds.
use crate::args_extractor::args_extractor::{collect, identifier_of, int_of, lin_int_coefficients, lin_var_names, term_at};
use crate::data_utility::lin_expression::dot;
use crate::data_utility::model::{ModelArray, ModelConstraintV, ModelLiteralV};
use crate::data_utility::types::{Register, VariableValueV};
use crate::evaluator::sub_types::int_evaluator::{
    int_compiled, int_setup_ok, int_violation, lemma_int_violation_zero_iff_holds, lin_value, IntConstraint,
    IntKind,
};
use crate::evaluator::sub_types::bool_evaluator::{
    all_true, bool_compiled, bool_of, bool_setup_ok, bool_violation, bools_of, both_true_count,
    lemma_bool_violation_zero_iff_holds, some_true, xor_all, BoolConstraint, BoolKind,
};
use crate::evaluator::sub_types::set_evaluator::{
    constants_finite, lemma_set_violation_zero_iff_holds, order_violation, set_compiled, set_setup_ok, set_term_fits,
    set_term_value, set_violation, solution_sets_finite, SetConstraint, SetKind, SetTerm,
};
use crate::evaluator::set_ops::{lex_le, lex_lt, sorted_elements, sym_diff};
use crate::args_extractor::sub_types::set_args_extractor::ranges_set;
use crate::evaluator::terms::{
    bool_read, bool_term_of, set_read, bool_term_value, int_pow, int_read, int_term_of, int_term_value, named_at,
    trunc_div, trunc_rem,
};
use crate::evaluator::mini_evaluator::{compiled_as, compiled_violation, compiles, kind_of_name, CompiledConstraint, ConstraintKind};
use crate::evaluator::names::{bool_kind_name, int_kind_name, lemma_names_select_kinds, set_kind_name};
use crate::evaluator::sub_types::bool_evaluator::BoolEvaluator;
use crate::evaluator::sub_types::int_evaluator::IntEvaluator;
use crate::evaluator::sub_types::set_evaluator::SetEvaluator;
use crate::data_utility::types::VariableValue;
use crate::functional_evaluator::sub_types::bool_functional_evaluator::{
    as_ints, bool_named, int_named, lemma_named_violation_zero_iff_holds, named_bool_value, named_bool_violation,
    named_bools, named_compiled, named_int_value, named_lin_value, named_setup_ok, NamedBoolConstraint,
};
use vstd::prelude::*;

verus! {

/// The integer that the variable `name` holds in the solution, through its register.
pub open spec fn int_var_value(name: Seq<char>, regs: Map<Seq<char>, Register>, sol: Seq<VariableValueV>) -> Option<i64> {
    if regs.contains_key(name) {
        int_read(sol, regs[name])
    } else {
        None
    }
}

/// The boolean that the variable `name` holds in the solution, through its register.
pub open spec fn bool_var_value(name: Seq<char>, regs: Map<Seq<char>, Register>, sol: Seq<VariableValueV>) -> Option<bool> {
    if regs.contains_key(name) {
        bool_read(sol, regs[name])
    } else {
        None
    }
}

/// The integer that argument `idx` denotes in the solution: the value of the variable
/// it names, or the integer literal it is.
pub open spec fn int_arg(c: ModelConstraintV, idx: int, regs: Map<Seq<char>, Register>, sol: Seq<VariableValueV>) -> Option<i64> {
    match named_at(c, idx) {
        Some(n) => int_var_value(n, regs, sol),
        None => match term_at(c, idx) {
            Some(ModelLiteralV::Int(v)) => Some(v),
            _ => None,
        },
    }
}

/// The boolean that argument `idx` denotes in the solution: the value of the variable
/// it names, or the boolean literal it is.
pub open spec fn bool_arg(c: ModelConstraintV, idx: int, regs: Map<Seq<char>, Register>, sol: Seq<VariableValueV>) -> Option<bool> {
    match named_at(c, idx) {
        Some(n) => bool_var_value(n, regs, sol),
        None => match term_at(c, idx) {
            Some(ModelLiteralV::Bool(v)) => Some(v),
            _ => None,
        },
    }
}

/// The value of `sum(as[i] * bs[i])` of a linear constraint: the coefficients of
/// argument 0 against the values of the variables of argument 1, paired up to the
/// shorter list.
pub open spec fn lin_arg_sum(
    c: ModelConstraintV,
    arrays: Map<Seq<char>, ModelArray>,
    regs: Map<Seq<char>, Register>,
    sol: Seq<VariableValueV>,
) -> int {
    let coeff = lin_int_coefficients(c.args, 0, arrays);
    let names = lin_var_names(c.args, 1, arrays);
    let n: nat = if coeff.len() <= names.len() { coeff.len() } else { names.len() };
    dot(coeff, Seq::new(n, |i: int| int_var_value(names[i], regs, sol)->0), n)
}

/// What an integer FlatZinc constraint of kind `k` states of a solution, read from
/// its arguments: `array_int_element(i, as, v)` and `array_var_int_element(i, as, v)`
/// take the element of `as` at position `i` (from zero, as the evaluation indexes);
/// the linear constraints compare `sum(as[i] * bs[i])` with the constant of argument 2
/// (and reify the comparison into argument 3); the others relate arguments 0, 1 and 2
/// as their names say.
pub open spec fn int_meaning(
    k: IntKind,
    c: ModelConstraintV,
    arrays: Map<Seq<char>, ModelArray>,
    regs: Map<Seq<char>, Register>,
    sol: Seq<VariableValueV>,
) -> bool {
    let x = int_arg(c, 0, regs, sol)->0;
    let y = int_arg(c, 1, regs, sol)->0;
    let z = int_arg(c, 2, regs, sol)->0;
    let r = bool_arg(c, 2, regs, sol)->0;
    let r3 = bool_arg(c, 3, regs, sol)->0;
    let s = lin_arg_sum(c, arrays, regs, sol);
    let k2 = term_at(c, 2)->0->Int_0;
    let pos = int_var_value(named_at(c, 0)->0, regs, sol)->0 as usize;
    let value = int_var_value(named_at(c, 2)->0, regs, sol)->0;
    let elems = arrays[named_at(c, 1)->0]@;
    match k {
        IntKind::ArrayIntElement => collect(elems, |l: ModelLiteralV| int_of(l))[pos as int] == value,
        IntKind::ArrayVarIntElement => int_var_value(
            collect(elems, |l: ModelLiteralV| identifier_of(l))[pos as int],
            regs,
            sol,
        )->0 == value,
        IntKind::IntAbs => y == (if x < 0 { -x } else { x as int }),
        IntKind::IntDiv => y != 0 && z == trunc_div(x as int, y as int),
        IntKind::IntEq => x == y,
        IntKind::IntEqReif => r == (x == y),
        IntKind::IntLe => x <= y,
        IntKind::IntLeReif => r == (x <= y),
        IntKind::IntLinEq => s == k2,
        IntKind::IntLinEqReif => r3 == (s == k2),
        IntKind::IntLinLe => s <= k2,
        IntKind::IntLinLeReif => r3 == (s <= k2),
        IntKind::IntLinNe => s != k2,
        IntKind::IntLinNeReif => r3 == (s != k2),
        IntKind::IntLt => x < y,
        IntKind::IntLtReif => r == (x < y),
        IntKind::IntMax => z == (if x >= y { x } else { y }),
        IntKind::IntMin => z == (if x <= y { x } else { y }),
        IntKind::IntMod => y != 0 && z == trunc_rem(x as int, y as int),
        IntKind::IntNe => x != y,
        IntKind::IntNeReif => r == (x != y),
        IntKind::IntPow => y >= 0 && z == int_pow(x as int, y as nat),
        IntKind::IntTimes => z == x * y,
    }
}

/// The distance between two integers.
pub open spec fn dist(x: int, y: int) -> int {
    if x >= y { x - y } else { y - x }
}

/// `1` when `b` holds, `0` otherwise.
pub open spec fn one_if(b: bool) -> int {
    if b { 1 } else { 0 }
}

/// How far an integer FlatZinc constraint of kind `k` is from holding in a solution,
/// read from its arguments: the distance between the two sides of an equation, how
/// far the left side of `<=` exceeds the right (and one more for `<`), `1` for a
/// violated disequality, reification or constraint with no integer solution (a zero
/// divisor, a negative exponent, `r` false while `a = b`), `0` when it holds.
pub open spec fn int_amount(
    k: IntKind,
    c: ModelConstraintV,
    arrays: Map<Seq<char>, ModelArray>,
    regs: Map<Seq<char>, Register>,
    sol: Seq<VariableValueV>,
) -> int {
    let x = int_arg(c, 0, regs, sol)->0 as int;
    let y = int_arg(c, 1, regs, sol)->0 as int;
    let z = int_arg(c, 2, regs, sol)->0 as int;
    let r = bool_arg(c, 2, regs, sol)->0;
    let r3 = bool_arg(c, 3, regs, sol)->0;
    let s = lin_arg_sum(c, arrays, regs, sol);
    let k2 = term_at(c, 2)->0->Int_0 as int;
    let pos = int_var_value(named_at(c, 0)->0, regs, sol)->0 as usize;
    let value = int_var_value(named_at(c, 2)->0, regs, sol)->0 as int;
    let elems = arrays[named_at(c, 1)->0]@;
    match k {
        IntKind::ArrayIntElement => dist(value, collect(elems, |l: ModelLiteralV| int_of(l))[pos as int] as int),
        IntKind::ArrayVarIntElement => dist(
            value,
            int_var_value(collect(elems, |l: ModelLiteralV| identifier_of(l))[pos as int], regs, sol)->0 as int,
        ),
        IntKind::IntAbs => dist(y, if x < 0 { -x } else { x }),
        IntKind::IntDiv => if y == 0 { 1 } else { dist(z, trunc_div(x, y)) },
        IntKind::IntEq => dist(x, y),
        IntKind::IntEqReif => if r == (x == y) { 0 } else if x == y { 1 } else { dist(x, y) },
        IntKind::IntLe => if x > y { x - y } else { 0 },
        IntKind::IntLeReif => one_if(r != (x <= y)),
        IntKind::IntLinEq => dist(s, k2),
        IntKind::IntLinEqReif => one_if(r3 != (s == k2)),
        IntKind::IntLinLe => if s > k2 { s - k2 } else { 0 },
        IntKind::IntLinLeReif => one_if(r3 != (s <= k2)),
        IntKind::IntLinNe => one_if(s == k2),
        IntKind::IntLinNeReif => one_if(r3 != (s != k2)),
        IntKind::IntLt => if x >= y { x - y + 1 } else { 0 },
        IntKind::IntLtReif => one_if(r != (x < y)),
        IntKind::IntMax => dist(z, if x >= y { x } else { y }),
        IntKind::IntMin => dist(z, if x <= y { x } else { y }),
        IntKind::IntMod => if y == 0 { 1 } else { dist(z, trunc_rem(x, y)) },
        IntKind::IntNe => one_if(x == y),
        IntKind::IntNeReif => one_if(r != (x != y)),
        IntKind::IntPow => if y < 0 { 1 } else { dist(z, int_pow(x, y as nat)) },
        IntKind::IntTimes => dist(z, x * y),
    }
}

/// A compiled integer constraint measures how far the constraint is from holding:
/// wherever its evaluation succeeds, its violation is the amount that the
/// constraint's arguments give ([`int_amount`]).
#[verifier::spinoff_prover]
#[verifier::rlimit(60)]
pub proof fn lemma_int_measures_amount(
    k: IntKind,
    p: IntConstraint,
    c: ModelConstraintV,
    arrays: Map<Seq<char>, ModelArray>,
    regs: Map<Seq<char>, Register>,
    sol: Seq<VariableValueV>,
)
    requires
        int_setup_ok(k, c, arrays, regs),
        int_compiled(k, p, c, arrays, regs),
        int_violation(p, sol) is Some,
    ensures
        int_violation(p, sol) == Some(int_amount(k, c, arrays, regs, sol)),
{
    if int_term_of(c, 0, regs) is Some {
        lemma_int_operand(c, 0, regs, sol);
    }
    if int_term_of(c, 1, regs) is Some {
        lemma_int_operand(c, 1, regs, sol);
    }
    if int_term_of(c, 2, regs) is Some {
        lemma_int_operand(c, 2, regs, sol);
    }
    if bool_term_of(c, 2, regs) is Some {
        lemma_bool_operand(c, 2, regs, sol);
    }
    if bool_term_of(c, 3, regs) is Some {
        lemma_bool_operand(c, 3, regs, sol);
    }
    match p {
        IntConstraint::LinEq { coeff, registers, constant }
        | IntConstraint::LinEqReif { coeff, registers, constant, .. }
        | IntConstraint::LinLe { coeff, registers, constant }
        | IntConstraint::LinLeReif { coeff, registers, constant, .. }
        | IntConstraint::LinNe { coeff, registers, constant }
        | IntConstraint::LinNeReif { coeff, registers, constant, .. } => {
            lemma_lin_sum(coeff@, registers@, c, arrays, regs, sol);
            assert(int_violation(p, sol) == Some(int_amount(k, c, arrays, regs, sol)));
        },
        IntConstraint::ArrayElement { .. } | IntConstraint::ArrayVarElement { .. } => {
            assert(int_violation(p, sol) == Some(int_amount(k, c, arrays, regs, sol)));
        },
        IntConstraint::Abs { .. } | IntConstraint::Eq { .. } | IntConstraint::Le { .. } | IntConstraint::Lt { .. }
        | IntConstraint::Ne { .. } => {
            assert(int_violation(p, sol) == Some(int_amount(k, c, arrays, regs, sol)));
        },
        IntConstraint::EqReif { .. } | IntConstraint::LeReif { .. } | IntConstraint::LtReif { .. }
        | IntConstraint::NeReif { .. } => {
            assert(int_violation(p, sol) == Some(int_amount(k, c, arrays, regs, sol)));
        },
        _ => {
            assert(int_violation(p, sol) == Some(int_amount(k, c, arrays, regs, sol)));
        },
    }
}

/// An integer operand reads what its argument denotes.
proof fn lemma_int_operand(c: ModelConstraintV, idx: int, regs: Map<Seq<char>, Register>, sol: Seq<VariableValueV>)
    requires
        int_term_of(c, idx, regs) is Some,
    ensures
        int_term_value(int_term_of(c, idx, regs)->0, sol) == int_arg(c, idx, regs, sol),
{
}

/// A boolean operand reads what its argument denotes.
proof fn lemma_bool_operand(c: ModelConstraintV, idx: int, regs: Map<Seq<char>, Register>, sol: Seq<VariableValueV>)
    requires
        bool_term_of(c, idx, regs) is Some,
    ensures
        bool_term_value(bool_term_of(c, idx, regs)->0, sol) == bool_arg(c, idx, regs, sol),
{
}

/// A compiled integer constraint measures what the constraint states: wherever its
/// evaluation succeeds, its violation is zero exactly when the statement of its kind,
/// read from the constraint's arguments ([`int_meaning`]), holds of the solution.
#[verifier::spinoff_prover]
#[verifier::rlimit(60)]
pub proof fn lemma_int_measures_meaning(
    k: IntKind,
    p: IntConstraint,
    c: ModelConstraintV,
    arrays: Map<Seq<char>, ModelArray>,
    regs: Map<Seq<char>, Register>,
    sol: Seq<VariableValueV>,
)
    requires
        int_setup_ok(k, c, arrays, regs),
        int_compiled(k, p, c, arrays, regs),
        int_violation(p, sol) is Some,
    ensures
        int_violation(p, sol) == Some(0int) <==> int_meaning(k, c, arrays, regs, sol),
{
    lemma_int_violation_zero_iff_holds(p, sol);
    if int_term_of(c, 0, regs) is Some {
        lemma_int_operand(c, 0, regs, sol);
    }
    if int_term_of(c, 1, regs) is Some {
        lemma_int_operand(c, 1, regs, sol);
    }
    if int_term_of(c, 2, regs) is Some {
        lemma_int_operand(c, 2, regs, sol);
    }
    if bool_term_of(c, 2, regs) is Some {
        lemma_bool_operand(c, 2, regs, sol);
    }
    if bool_term_of(c, 3, regs) is Some {
        lemma_bool_operand(c, 3, regs, sol);
    }
    match p {
        IntConstraint::LinEq { coeff, registers, constant }
        | IntConstraint::LinEqReif { coeff, registers, constant, .. }
        | IntConstraint::LinLe { coeff, registers, constant }
        | IntConstraint::LinLeReif { coeff, registers, constant, .. }
        | IntConstraint::LinNe { coeff, registers, constant }
        | IntConstraint::LinNeReif { coeff, registers, constant, .. } => {
            lemma_lin_sum(coeff@, registers@, c, arrays, regs, sol);
        },
        _ => {},
    }
}

/// The sum that a compiled linear constraint computes is the sum its arguments state.
proof fn lemma_lin_sum(
    coeff: Seq<i64>,
    registers: Seq<Register>,
    c: ModelConstraintV,
    arrays: Map<Seq<char>, ModelArray>,
    regs: Map<Seq<char>, Register>,
    sol: Seq<VariableValueV>,
)
    requires
        coeff == lin_int_coefficients(c.args, 0, arrays),
        registers == crate::evaluator::terms::registers_of(lin_var_names(c.args, 1, arrays), regs),
        crate::evaluator::terms::all_registered(lin_var_names(c.args, 1, arrays), regs),
        lin_value(coeff, registers, sol) is Some,
    ensures
        lin_value(coeff, registers, sol)->0 == lin_arg_sum(c, arrays, regs, sol),
{
    let names = lin_var_names(c.args, 1, arrays);
    let n: nat = if coeff.len() <= registers.len() { coeff.len() } else { registers.len() };
    let v1 = Seq::new(n, |i: int| int_read(sol, registers[i])->0);
    let v2 = Seq::new(n, |i: int| int_var_value(names[i], regs, sol)->0);
    assert forall|i: int| 0 <= i < n implies v1[i] == v2[i] by {
        assert(regs.contains_key(names[i]));
    }
    assert(v1 =~= v2);
}

/// The booleans that a list of variables holds, through their registers.
pub open spec fn bool_vars(names: Seq<Seq<char>>, regs: Map<Seq<char>, Register>, sol: Seq<VariableValueV>) -> Seq<bool> {
    Seq::new(names.len(), |i: int| bool_var_value(names[i], regs, sol)->0)
}

/// What a boolean FlatZinc constraint of kind `k` states of a solution, read from its
/// arguments: `as` and `bs` are the boolean variables of arguments 0 and 1; the
/// element constraints take the element of `as` at position `i` (from zero, as the
/// evaluation indexes); `bool_lin_eq` and `bool_lin_le` count the positions where
/// both `as` and `bs` hold true; the others relate arguments 0, 1 and 2 as their
/// names say.
pub open spec fn bool_meaning(
    k: BoolKind,
    c: ModelConstraintV,
    arrays: Map<Seq<char>, ModelArray>,
    regs: Map<Seq<char>, Register>,
    sol: Seq<VariableValueV>,
) -> bool {
    let a = bool_arg(c, 0, regs, sol)->0;
    let b = bool_arg(c, 1, regs, sol)->0;
    let t = bool_arg(c, 2, regs, sol)->0;
    let xs = bool_vars(lin_var_names(c.args, 0, arrays), regs, sol);
    let ys = bool_vars(lin_var_names(c.args, 1, arrays), regs, sol);
    let k2 = term_at(c, 2)->0->Int_0;
    let pos = int_var_value(named_at(c, 0)->0, regs, sol)->0 as usize;
    let value = bool_var_value(named_at(c, 2)->0, regs, sol)->0;
    let elems = arrays[named_at(c, 1)->0]@;
    match k {
        BoolKind::ArrayBoolAnd => b == all_true(xs),
        BoolKind::ArrayBoolElement => collect(elems, |l: ModelLiteralV| bool_of(l))[pos as int] == value,
        BoolKind::ArrayVarBoolElement => bool_var_value(
            collect(elems, |l: ModelLiteralV| identifier_of(l))[pos as int],
            regs,
            sol,
        )->0 == value,
        BoolKind::ArrayBoolXor => xor_all(xs),
        BoolKind::BoolAnd => t == (a && b),
        BoolKind::BoolClause => some_true(xs) || exists|j: int| 0 <= j < ys.len() && !#[trigger] ys[j],
        BoolKind::BoolEq => a == b,
        BoolKind::BoolEqReif => t == (a == b),
        BoolKind::BoolLe => !a || b,
        BoolKind::BoolLeReif => t == (!a || b),
        BoolKind::BoolLinEq => both_true_count(xs, ys) == k2,
        BoolKind::BoolLinLe => both_true_count(xs, ys) <= k2,
        BoolKind::BoolLt => !a && b,
        BoolKind::BoolLtReif => t == (!a && b),
        BoolKind::BoolNot => a != b,
        BoolKind::BoolOr => t == (a || b),
        BoolKind::BoolXor => t == (a != b),
        BoolKind::Bool2Int => int_arg(c, 1, regs, sol)->0 == (if a { 1int } else { 0int }),
    }
}

/// The booleans that the registers of an array argument hold are those its variables
/// hold.
proof fn lemma_bool_array(c: ModelConstraintV, idx: int, arrays: Map<Seq<char>, ModelArray>, regs: Map<Seq<char>, Register>, sol: Seq<VariableValueV>)
    requires
        crate::evaluator::terms::all_registered(lin_var_names(c.args, idx, arrays), regs),
    ensures
        bools_of(crate::evaluator::terms::registers_of(lin_var_names(c.args, idx, arrays), regs), sol)
            == bool_vars(lin_var_names(c.args, idx, arrays), regs, sol),
{
    let names = lin_var_names(c.args, idx, arrays);
    assert forall|i: int| 0 <= i < names.len() implies regs.contains_key(#[trigger] names[i]) by {}
    assert(bools_of(crate::evaluator::terms::registers_of(names, regs), sol) =~= bool_vars(names, regs, sol));
}

/// A compiled boolean constraint measures what the constraint states: wherever its
/// evaluation succeeds, its violation is zero exactly when the statement of its kind,
/// read from the constraint's arguments ([`bool_meaning`]), holds of the solution.
pub proof fn lemma_bool_measures_meaning(
    k: BoolKind,
    p: BoolConstraint,
    c: ModelConstraintV,
    arrays: Map<Seq<char>, ModelArray>,
    regs: Map<Seq<char>, Register>,
    sol: Seq<VariableValueV>,
)
    requires
        bool_setup_ok(k, c, arrays, regs),
        bool_compiled(k, p, c, arrays, regs),
        bool_violation(p, sol) is Some,
    ensures
        bool_violation(p, sol) == Some(0int) <==> bool_meaning(k, c, arrays, regs, sol),
{
    lemma_bool_violation_zero_iff_holds(p, sol);
    if int_term_of(c, 1, regs) is Some {
        lemma_int_operand(c, 1, regs, sol);
    }
    if bool_term_of(c, 0, regs) is Some {
        lemma_bool_operand(c, 0, regs, sol);
    }
    if bool_term_of(c, 1, regs) is Some {
        lemma_bool_operand(c, 1, regs, sol);
    }
    if bool_term_of(c, 2, regs) is Some {
        lemma_bool_operand(c, 2, regs, sol);
    }
    match k {
        BoolKind::ArrayBoolAnd | BoolKind::ArrayBoolXor => {
            lemma_bool_array(c, 0, arrays, regs, sol);
        },
        BoolKind::BoolClause | BoolKind::BoolLinEq | BoolKind::BoolLinLe => {
            lemma_bool_array(c, 0, arrays, regs, sol);
            lemma_bool_array(c, 1, arrays, regs, sol);
        },
        _ => {},
    }
}

/// The set that the variable `name` holds in the solution, through its register.
pub open spec fn set_var_value(name: Seq<char>, regs: Map<Seq<char>, Register>, sol: Seq<VariableValueV>) -> Option<Set<i64>> {
    if regs.contains_key(name) {
        set_read(sol, regs[name])
    } else {
        None
    }
}

/// The set that argument `idx` denotes in the solution: the value of the variable it
/// names, or the integers that the set literal it is covers.
pub open spec fn set_arg(c: ModelConstraintV, idx: int, regs: Map<Seq<char>, Register>, sol: Seq<VariableValueV>) -> Option<Set<i64>> {
    match named_at(c, idx) {
        Some(n) => set_var_value(n, regs, sol),
        None => match term_at(c, idx) {
            Some(ModelLiteralV::IntSet(rs)) => Some(ranges_set(rs)),
            _ => None,
        },
    }
}

/// What a set FlatZinc constraint of kind `k` states of a solution, read from its
/// arguments: the element constraints take the element of `as` at position `i` (from
/// zero, as the evaluation indexes); `set_le` and `set_lt` compare the ascending
/// listings lexicographically; the others relate arguments 0, 1 and 2 as their names
/// say.
pub open spec fn set_meaning(
    k: SetKind,
    c: ModelConstraintV,
    arrays: Map<Seq<char>, ModelArray>,
    regs: Map<Seq<char>, Register>,
    sol: Seq<VariableValueV>,
) -> bool {
    let x = set_arg(c, 0, regs, sol)->0;
    let y = set_arg(c, 1, regs, sol)->0;
    let z = set_arg(c, 2, regs, sol)->0;
    let r = bool_arg(c, 2, regs, sol)->0;
    let pos = int_var_value(named_at(c, 0)->0, regs, sol)->0 as usize;
    let value = set_var_value(named_at(c, 2)->0, regs, sol)->0;
    let elems = arrays[named_at(c, 1)->0]@;
    match k {
        SetKind::ArraySetElement => ranges_set(elems[pos as int]->IntSet_0) == value,
        SetKind::ArrayVarSetElement => set_var_value(
            collect(elems, |l: ModelLiteralV| identifier_of(l))[pos as int],
            regs,
            sol,
        )->0 == value,
        SetKind::SetCard => x.len() == int_arg(c, 1, regs, sol)->0,
        SetKind::SetDiff => x.difference(y) == z,
        SetKind::SetEq => x == y,
        SetKind::SetEqReif => r == (x == y),
        SetKind::SetIn => y.contains(int_arg(c, 0, regs, sol)->0),
        SetKind::SetInReif => r == y.contains(int_arg(c, 0, regs, sol)->0),
        SetKind::SetIntersect => x.intersect(y) == z,
        SetKind::SetLe => lex_le(sorted_elements(x), sorted_elements(y)),
        SetKind::SetLeReif => r == lex_le(sorted_elements(x), sorted_elements(y)),
        SetKind::SetLt => lex_lt(sorted_elements(x), sorted_elements(y)),
        SetKind::SetLtReif => r == lex_lt(sorted_elements(x), sorted_elements(y)),
        SetKind::SetNe => x != y,
        SetKind::SetNeReif => r == (x != y),
        SetKind::SetSubset => x.subset_of(y),
        SetKind::SetSubsetReif => r == x.subset_of(y),
        SetKind::SetSuperset => y.subset_of(x),
        SetKind::SetSupersetReif => r == y.subset_of(x),
        SetKind::SetSymdiff => sym_diff(x, y) == z,
        SetKind::SetUnion => x.union(y) == z,
    }
}

/// How far a set FlatZinc constraint of kind `k` is from holding in a solution, read
/// from its arguments: the number of elements on which the two sides of a set
/// equation differ, the number of elements of the smaller side missing from the
/// larger one for `set_subset` and `set_superset`, the distance between a set's size
/// and its cardinality argument, the count of the ordering (see [`order_violation`])
/// for `set_le` and `set_lt`, `1` for a violated membership, disequality or
/// reification, `0` when it holds.
pub open spec fn set_amount(
    k: SetKind,
    c: ModelConstraintV,
    arrays: Map<Seq<char>, ModelArray>,
    regs: Map<Seq<char>, Register>,
    sol: Seq<VariableValueV>,
) -> int {
    let x = set_arg(c, 0, regs, sol)->0;
    let y = set_arg(c, 1, regs, sol)->0;
    let z = set_arg(c, 2, regs, sol)->0;
    let r = bool_arg(c, 2, regs, sol)->0;
    let pos = int_var_value(named_at(c, 0)->0, regs, sol)->0 as usize;
    let value = set_var_value(named_at(c, 2)->0, regs, sol)->0;
    let elems = arrays[named_at(c, 1)->0]@;
    match k {
        SetKind::ArraySetElement => sym_diff(ranges_set(elems[pos as int]->IntSet_0), value).len() as int,
        SetKind::ArrayVarSetElement => sym_diff(
            set_var_value(collect(elems, |l: ModelLiteralV| identifier_of(l))[pos as int], regs, sol)->0,
            value,
        ).len() as int,
        SetKind::SetCard => dist(x.len() as int, int_arg(c, 1, regs, sol)->0 as int),
        SetKind::SetDiff => sym_diff(x.difference(y), z).len() as int,
        SetKind::SetEq => sym_diff(x, y).len() as int,
        SetKind::SetEqReif => one_if(r != (x == y)),
        SetKind::SetIn => one_if(!y.contains(int_arg(c, 0, regs, sol)->0)),
        SetKind::SetInReif => one_if(r != y.contains(int_arg(c, 0, regs, sol)->0)),
        SetKind::SetIntersect => sym_diff(x.intersect(y), z).len() as int,
        SetKind::SetLe => order_violation(x, y, false),
        SetKind::SetLeReif => one_if(r != lex_le(sorted_elements(x), sorted_elements(y))),
        SetKind::SetLt => order_violation(x, y, true),
        SetKind::SetLtReif => one_if(r != lex_lt(sorted_elements(x), sorted_elements(y))),
        SetKind::SetNe => one_if(x == y),
        SetKind::SetNeReif => one_if(r != (x != y)),
        SetKind::SetSubset => x.difference(y).len() as int,
        SetKind::SetSubsetReif => one_if(r != x.subset_of(y)),
        SetKind::SetSuperset => y.difference(x).len() as int,
        SetKind::SetSupersetReif => one_if(r != y.subset_of(x)),
        SetKind::SetSymdiff => sym_diff(sym_diff(x, y), z).len() as int,
        SetKind::SetUnion => sym_diff(x.union(y), z).len() as int,
    }
}

/// A compiled set constraint measures how far the constraint is from holding:
/// wherever its evaluation succeeds, its violation is the amount that the
/// constraint's arguments give ([`set_amount`]).
#[verifier::spinoff_prover]
#[verifier::rlimit(60)]
pub proof fn lemma_set_measures_amount(
    k: SetKind,
    p: SetConstraint,
    c: ModelConstraintV,
    arrays: Map<Seq<char>, ModelArray>,
    regs: Map<Seq<char>, Register>,
    sol: Seq<VariableValueV>,
)
    requires
        set_setup_ok(k, c, arrays, regs),
        set_compiled(k, p, c, arrays, regs),
        set_violation(p, sol) is Some,
    ensures
        set_violation(p, sol) == Some(set_amount(k, c, arrays, regs, sol)),
{
    if int_term_of(c, 0, regs) is Some {
        lemma_int_operand(c, 0, regs, sol);
    }
    if int_term_of(c, 1, regs) is Some {
        lemma_int_operand(c, 1, regs, sol);
    }
    if bool_term_of(c, 2, regs) is Some {
        lemma_bool_operand(c, 2, regs, sol);
    }
    match p {
        SetConstraint::Card { a, .. } => {
            lemma_set_operand(a, c, 0, regs, sol);
        },
        SetConstraint::In { y, .. } | SetConstraint::InReif { y, .. } => {
            lemma_set_operand(y, c, 1, regs, sol);
        },
        SetConstraint::Eq { x, y } | SetConstraint::Le { x, y } | SetConstraint::Lt { x, y }
        | SetConstraint::Ne { x, y } | SetConstraint::Subset { x, y } | SetConstraint::Superset { x, y }
        | SetConstraint::EqReif { x, y, .. } | SetConstraint::LeReif { x, y, .. }
        | SetConstraint::LtReif { x, y, .. } | SetConstraint::NeReif { x, y, .. }
        | SetConstraint::SubsetReif { x, y, .. } | SetConstraint::SupersetReif { x, y, .. } => {
            lemma_set_operand(x, c, 0, regs, sol);
            lemma_set_operand(y, c, 1, regs, sol);
        },
        SetConstraint::Diff { x, y, z } | SetConstraint::Intersect { x, y, z }
        | SetConstraint::Symdiff { x, y, z } | SetConstraint::Union { x, y, z } => {
            lemma_set_operand(x, c, 0, regs, sol);
            lemma_set_operand(y, c, 1, regs, sol);
            lemma_set_operand(z, c, 2, regs, sol);
        },
        SetConstraint::ArrayVarElement { array, .. } => {
            let names = collect(arrays[named_at(c, 1)->0]@, |l: ModelLiteralV| identifier_of(l));
            assert forall|i: int| 0 <= i < names.len() implies regs.contains_key(#[trigger] names[i]) by {}
        },
        _ => {},
    }
}

/// A set operand reads what its argument denotes.
proof fn lemma_set_operand(t: SetTerm, c: ModelConstraintV, idx: int, regs: Map<Seq<char>, Register>, sol: Seq<VariableValueV>)
    requires
        set_term_fits(t, c, idx, regs),
    ensures
        set_term_value(t, sol) == set_arg(c, idx, regs, sol),
{
}

/// A compiled set constraint measures what the constraint states: wherever its
/// evaluation succeeds on a solution of finite sets, its violation is zero exactly
/// when the statement of its kind, read from the constraint's arguments
/// ([`set_meaning`]), holds of the solution.
pub proof fn lemma_set_measures_meaning(
    k: SetKind,
    p: SetConstraint,
    c: ModelConstraintV,
    arrays: Map<Seq<char>, ModelArray>,
    regs: Map<Seq<char>, Register>,
    sol: Seq<VariableValueV>,
)
    requires
        set_setup_ok(k, c, arrays, regs),
        set_compiled(k, p, c, arrays, regs),
        set_violation(p, sol) is Some,
        solution_sets_finite(sol),
        constants_finite(p),
    ensures
        set_violation(p, sol) == Some(0int) <==> set_meaning(k, c, arrays, regs, sol),
{
    lemma_set_violation_zero_iff_holds(p, sol);
    if int_term_of(c, 0, regs) is Some {
        lemma_int_operand(c, 0, regs, sol);
    }
    if int_term_of(c, 1, regs) is Some {
        lemma_int_operand(c, 1, regs, sol);
    }
    if bool_term_of(c, 2, regs) is Some {
        lemma_bool_operand(c, 2, regs, sol);
    }
    match p {
        SetConstraint::Card { a, .. } => {
            lemma_set_operand(a, c, 0, regs, sol);
        },
        SetConstraint::In { y, .. } | SetConstraint::InReif { y, .. } => {
            lemma_set_operand(y, c, 1, regs, sol);
        },
        SetConstraint::Eq { x, y } | SetConstraint::Le { x, y } | SetConstraint::Lt { x, y }
        | SetConstraint::Ne { x, y } | SetConstraint::Subset { x, y } | SetConstraint::Superset { x, y }
        | SetConstraint::EqReif { x, y, .. } | SetConstraint::LeReif { x, y, .. }
        | SetConstraint::LtReif { x, y, .. } | SetConstraint::NeReif { x, y, .. }
        | SetConstraint::SubsetReif { x, y, .. } | SetConstraint::SupersetReif { x, y, .. } => {
            lemma_set_operand(x, c, 0, regs, sol);
            lemma_set_operand(y, c, 1, regs, sol);
        },
        SetConstraint::Diff { x, y, z } | SetConstraint::Intersect { x, y, z }
        | SetConstraint::Symdiff { x, y, z } | SetConstraint::Union { x, y, z } => {
            lemma_set_operand(x, c, 0, regs, sol);
            lemma_set_operand(y, c, 1, regs, sol);
            lemma_set_operand(z, c, 2, regs, sol);
        },
        SetConstraint::ArrayVarElement { array, .. } => {
            let names = collect(arrays[named_at(c, 1)->0]@, |l: ModelLiteralV| identifier_of(l));
            assert forall|i: int| 0 <= i < names.len() implies regs.contains_key(#[trigger] names[i]) by {}
        },
        _ => {},
    }
}

/// A constraint compiled by its predicate name measures what that name states: an
/// integer, boolean or set constraint is named by the FlatZinc name of some kind, and
/// wherever its evaluation succeeds (on a solution of finite sets), its violation is
/// zero exactly when the statement of that kind, read from the constraint's
/// arguments, holds of the solution.
pub proof fn lemma_compiled_measures_named_meaning(
    p: CompiledConstraint,
    c: ModelConstraintV,
    ints: IntEvaluator,
    bools: BoolEvaluator,
    sets: SetEvaluator,
    sol: Seq<VariableValueV>,
)
    requires
        compiles(c, ints, bools, sets),
        compiled_as(p, c, ints, bools, sets),
        compiled_violation(p, sol) is Some,
        solution_sets_finite(sol),
        p matches CompiledConstraint::IntegerSet(q) ==> constants_finite(q),
    ensures
        p is Integer ==> exists|k: IntKind| #[trigger] int_kind_name(k) == c.id && (compiled_violation(p, sol)
            == Some(0int) <==> int_meaning(k, c, ints.array_map(), ints.register_map(), sol)),
        p is Boolean ==> exists|k: BoolKind| #[trigger] bool_kind_name(k) == c.id && (compiled_violation(p, sol)
            == Some(0int) <==> bool_meaning(k, c, bools.array_map(), bools.register_map(), sol)),
        p is IntegerSet ==> exists|k: SetKind| #[trigger] set_kind_name(k) == c.id && (compiled_violation(p, sol)
            == Some(0int) <==> set_meaning(k, c, sets.array_map(), sets.register_map(), sol)),
{
    lemma_names_select_kinds(c.id);
    if c.ann.len() == 0 {
        match kind_of_name(c.id) {
            ConstraintKind::Integer(k) => {
                let q = p->Integer_0;
                lemma_int_measures_meaning(k, q, c, ints.array_map(), ints.register_map(), sol);
                assert(int_kind_name(k) == c.id);
            },
            ConstraintKind::Boolean(k) => {
                let q = p->Boolean_0;
                lemma_bool_measures_meaning(k, q, c, bools.array_map(), bools.register_map(), sol);
                assert(bool_kind_name(k) == c.id);
            },
            ConstraintKind::IntegerSet(k) => {
                let q = p->IntegerSet_0;
                lemma_set_measures_meaning(k, q, c, sets.array_map(), sets.register_map(), sol);
                assert(set_kind_name(k) == c.id);
            },
            _ => {},
        }
    }
}

/// The boolean that argument `idx` denotes in a solution keyed by variable name: the
/// value of the variable it names, or the boolean literal it is.
pub open spec fn named_bool_arg(c: ModelConstraintV, idx: int, sol: Map<Seq<char>, VariableValue>) -> Option<bool> {
    match named_at(c, idx) {
        Some(n) => bool_named(n, sol),
        None => match term_at(c, idx) {
            Some(ModelLiteralV::Bool(v)) => Some(v),
            _ => None,
        },
    }
}

/// The integer that argument `idx` denotes in a solution keyed by variable name.
pub open spec fn named_int_arg(c: ModelConstraintV, idx: int, sol: Map<Seq<char>, VariableValue>) -> Option<i64> {
    match named_at(c, idx) {
        Some(n) => int_named(n, sol),
        None => match term_at(c, idx) {
            Some(ModelLiteralV::Int(v)) => Some(v),
            _ => None,
        },
    }
}

/// What a boolean FlatZinc constraint of kind `k` states of a solution keyed by
/// variable name, read from its arguments: `as` and `bs` are the boolean variables of
/// arguments 0 and 1; `array_bool_element(i, as, v)` takes the element at position `i`
/// (from zero, as the evaluation indexes); `bool_lin_eq(cs, bs, t)` and
/// `bool_lin_le(cs, bs, t)` compare `sum(cs[i] * bs[i])` (a true boolean counting `1`)
/// with `t`; the others relate arguments 0, 1 and 2 as their names say.
pub open spec fn named_meaning(
    k: BoolKind,
    c: ModelConstraintV,
    arrays: Map<Seq<char>, ModelArray>,
    sol: Map<Seq<char>, VariableValue>,
) -> bool {
    let a = named_bool_arg(c, 0, sol)->0;
    let b = named_bool_arg(c, 1, sol)->0;
    let t = named_bool_arg(c, 2, sol)->0;
    let xs = named_bools(lin_var_names(c.args, 0, arrays), sol);
    let ys = named_bools(lin_var_names(c.args, 1, arrays), sol);
    let coeff = lin_int_coefficients(c.args, 0, arrays);
    let n: nat = if coeff.len() <= ys.len() { coeff.len() } else { ys.len() };
    let s = dot(coeff, as_ints(ys), n);
    match k {
        BoolKind::ArrayBoolAnd => b == all_true(xs),
        BoolKind::ArrayBoolElement => {
            let pos = named_int_arg(c, 0, sol)->0 as usize;
            collect(arrays[named_at(c, 1)->0]@, |l: ModelLiteralV| bool_of(l))[pos as int] == t
        },
        BoolKind::ArrayVarBoolElement => false,
        BoolKind::ArrayBoolXor => xor_all(xs),
        BoolKind::BoolAnd => t == (a && b),
        BoolKind::BoolClause => some_true(xs) || exists|j: int| 0 <= j < ys.len() && !#[trigger] ys[j],
        BoolKind::BoolEq => a == b,
        BoolKind::BoolEqReif => t == (a == b),
        BoolKind::BoolLe => !a || b,
        BoolKind::BoolLeReif => t == (!a || b),
        BoolKind::BoolLinEq => s == named_int_arg(c, 2, sol)->0,
        BoolKind::BoolLinLe => s <= named_int_arg(c, 2, sol)->0,
        BoolKind::BoolLt => !a && b,
        BoolKind::BoolLtReif => t == (!a && b),
        BoolKind::BoolNot => a != b,
        BoolKind::BoolOr => t == (a || b),
        BoolKind::BoolXor => t == (a != b),
        BoolKind::Bool2Int => named_int_arg(c, 1, sol)->0 == (if a { 1int } else { 0int }),
    }
}

/// A constraint compiled over named variables measures what the constraint states:
/// wherever its evaluation succeeds, its violation is zero exactly when the statement
/// of its kind, read from the constraint's arguments ([`named_meaning`]), holds of the
/// solution.
pub proof fn lemma_named_measures_meaning(
    k: BoolKind,
    p: NamedBoolConstraint,
    c: ModelConstraintV,
    arrays: Map<Seq<char>, ModelArray>,
    sol: Map<Seq<char>, VariableValue>,
)
    requires
        named_setup_ok(k, c, arrays),
        named_compiled(k, p, c, arrays),
        named_bool_violation(p, sol) is Some,
    ensures
        named_bool_violation(p, sol) == Some(0int) <==> named_meaning(k, c, arrays, sol),
{
    lemma_named_violation_zero_iff_holds(p, sol);
}

} // verus!
